use epsilon_core::data_container::DataKind;
use epsilon_core::data_types::{DataTypes, DATA_TYPE_COUNT};

fn all_types() -> Vec<DataTypes> {
    (0..DATA_TYPE_COUNT).map(DataTypes::from_number).collect()
}

#[test]
fn test_as_number_and_from_number_roundtrip() {
    for datatype in all_types() {
        let number = datatype.as_number();
        let reconstructed = DataTypes::from_number(number);
        assert_eq!(datatype, reconstructed);
    }
}

#[test]
fn test_from_number_invalid_defaults_to_error_protocol() {
    let invalid = 255;
    let res = DataTypes::from_number(invalid);
    assert_eq!(res, DataTypes::error_protocol);
}

#[test]
fn test_parse_exact_match() {
    let parsed = DataTypes::parse("user_id".to_string());
    assert_eq!(parsed, DataTypes::user_id);
}

#[test]
fn test_parse_case_insensitive() {
    let parsed = DataTypes::parse("UsEr_Id".to_string());
    assert_eq!(parsed, DataTypes::user_id);
}

#[test]
fn test_parse_ignores_underscores() {
    let parsed = DataTypes::parse("userid".to_string());
    assert_eq!(parsed, DataTypes::user_id);
}

#[test]
fn test_parse_invalid_defaults_to_error_type() {
    let parsed = DataTypes::parse("not_existing_type".to_string());
    assert_eq!(parsed, DataTypes::error_type);
}

#[test]
fn test_to_string_matches_debug() {
    let datatype = DataTypes::call_id;
    assert_eq!(datatype.to_string(), "call_id");
}

#[test]
fn numbers_follow_declaration_order() {
    assert_eq!(DataTypes::error_type.as_number(), 0);
    assert_eq!(DataTypes::error_protocol.as_number(), 1);
    assert_eq!(DataTypes::user_id.as_number(), 11);
    assert_eq!(DataTypes::has_admin.as_number(), 86);
    assert_eq!(DataTypes::from_number(86), DataTypes::has_admin);
    assert_eq!(DataTypes::from_number(DATA_TYPE_COUNT), DataTypes::error_protocol);
}

#[test]
fn every_name_matches_debug_and_parses_back() {
    for datatype in all_types() {
        assert_eq!(datatype.to_string(), format!("{:?}", datatype));
        assert_eq!(DataTypes::parse(datatype.to_string()), datatype);
        assert_eq!(DataTypes::parse(datatype.to_string().to_uppercase()), datatype);
    }
}

#[test]
fn parse_ignores_underscores_anywhere() {
    assert_eq!(DataTypes::parse("_u_s_e_r_i_d_".to_string()), DataTypes::user_id);
    assert_eq!(DataTypes::parse("CHAT_PARTNER_NAME".to_string()), DataTypes::chat_partner_name);
    assert_eq!(DataTypes::parse("".to_string()), DataTypes::error_type);
    assert_eq!(DataTypes::parse("user id".to_string()), DataTypes::error_type);
}

#[test]
fn parse_lowercases_beyond_ascii() {
    // KELVIN SIGN lowercases to an ASCII 'k'.
    assert_eq!(DataTypes::parse("lin\u{212A}".to_string()), DataTypes::link);
}

#[test]
fn expected_kinds() {
    assert_eq!(DataTypes::error_protocol.expected_kind(), DataKind::Null);
    assert_eq!(DataTypes::user_id.expected_kind(), DataKind::Number);
    assert_eq!(DataTypes::username.expected_kind(), DataKind::Str);
    assert_eq!(DataTypes::messages.expected_kind(), DataKind::Array(Box::new(DataKind::Container)));
    assert_eq!(DataTypes::user_ids.expected_kind(), DataKind::Array(Box::new(DataKind::Number)));
    assert_eq!(DataTypes::user_states.expected_kind(), DataKind::Array(Box::new(DataKind::Str)));
    assert_eq!(DataTypes::settings.expected_kind(), DataKind::Container);
    assert_eq!(DataTypes::has_admin.expected_kind(), DataKind::Bool);
    assert_eq!(DataTypes::calls.expected_kind(), DataKind::Null);
    assert_ne!(DataKind::Array(Box::new(DataKind::Str)), DataKind::Array(Box::new(DataKind::Number)));
}
