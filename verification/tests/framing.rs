use epsilon_core::framing::{incoming_length, outgoing_length, FrameError, MAX_MESSAGE_SIZE};

#[test]
fn prefix_of_small_payloads() {
    assert_eq!(outgoing_length(0), Ok(0));
    assert_eq!(outgoing_length(42), Ok(42));
    assert_eq!(outgoing_length(MAX_MESSAGE_SIZE as usize), Ok(1_000_000_000));
}

#[test]
fn oversized_payload_is_refused() {
    assert_eq!(outgoing_length(MAX_MESSAGE_SIZE as usize + 1), Err(FrameError::MessageTooLarge));
    assert_eq!(incoming_length(1_000_000_001), Err(FrameError::MessageTooLarge));
    assert_eq!(incoming_length(u32::MAX), Err(FrameError::MessageTooLarge));
}

#[test]
fn accepted_prefix_gives_back_the_length() {
    for len in [0usize, 1, 255, 65_536, 999_999_999, 1_000_000_000] {
        let prefix = outgoing_length(len).unwrap();
        assert_eq!(incoming_length(prefix), Ok(len));
    }
}
