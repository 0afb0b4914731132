use vstd::prelude::*;

use crate::data_container::DataKind;
use crate::text::{
    all_ascii, ascii_lowercase, lemma_inserted_underscore_vanishes, lowercase_chars, remove_underscores, same_chars, unicode_lowercase,
    without_underscores,
};

verus! {

/// The field identifiers of the protocol, in their wire order.
///
/// A field's number is its position in this declaration, starting at 0;
/// its name is the identifier as written here.
#[derive(Debug, Clone, Copy, PartialEq, Eq, Structural, Hash, PartialOrd, Ord)]
#[allow(non_camel_case_types)]
pub enum DataTypes {
    error_type,
    error_protocol,
    accepted_ids,
    uuid,
    register_id,
    link,
    settings,
    settings_name,
    chat_partner_id,
    chat_partner_name,
    iota_id,
    user_id,
    user_ids,
    iota_ids,
    user_state,
    user_states,
    user_pings,
    call_state,
    screen_share,
    private_key_hash,
    accepted,
    accepted_profiles,
    denied_profiles,
    content,
    messages,
    notifications,
    send_time,
    get_time,
    get_variant,
    shared_secret_own,
    shared_secret_other,
    shared_secret_sign,
    shared_secret,
    call_id,
    call_token,
    untill,
    enabled,
    start_date,
    end_date,
    receiver_id,
    sender_id,
    signature,
    signed,
    message,
    message_state,
    last_ping,
    ping_iota,
    ping_clients,
    matches,
    omikron,
    offset,
    amount,
    position,
    name,
    path,
    codec,
    function,
    payload,
    result,
    interactables,
    want_to_watch,
    watcher,
    created_at,
    username,
    display,
    avatar,
    about,
    status,
    public_key,
    sub_level,
    sub_end,
    community_address,
    challenge,
    community_title,
    communities,
    rho_connections,
    user,
    online_status,
    omikron_id,
    omikron_connections,
    reset_token,
    new_token,
    call_invited,
    call_members,
    calls,
    timeout,
    has_admin,
}

/// How many field identifiers there are.
pub const DATA_TYPE_COUNT: u8 = 87;

impl DataTypes {
    /// The position of this identifier in the declaration order.
    pub open spec fn position(self) -> nat {
        match self {
            DataTypes::error_type => 0,
            DataTypes::error_protocol => 1,
            DataTypes::accepted_ids => 2,
            DataTypes::uuid => 3,
            DataTypes::register_id => 4,
            DataTypes::link => 5,
            DataTypes::settings => 6,
            DataTypes::settings_name => 7,
            DataTypes::chat_partner_id => 8,
            DataTypes::chat_partner_name => 9,
            DataTypes::iota_id => 10,
            DataTypes::user_id => 11,
            DataTypes::user_ids => 12,
            DataTypes::iota_ids => 13,
            DataTypes::user_state => 14,
            DataTypes::user_states => 15,
            DataTypes::user_pings => 16,
            DataTypes::call_state => 17,
            DataTypes::screen_share => 18,
            DataTypes::private_key_hash => 19,
            DataTypes::accepted => 20,
            DataTypes::accepted_profiles => 21,
            DataTypes::denied_profiles => 22,
            DataTypes::content => 23,
            DataTypes::messages => 24,
            DataTypes::notifications => 25,
            DataTypes::send_time => 26,
            DataTypes::get_time => 27,
            DataTypes::get_variant => 28,
            DataTypes::shared_secret_own => 29,
            DataTypes::shared_secret_other => 30,
            DataTypes::shared_secret_sign => 31,
            DataTypes::shared_secret => 32,
            DataTypes::call_id => 33,
            DataTypes::call_token => 34,
            DataTypes::untill => 35,
            DataTypes::enabled => 36,
            DataTypes::start_date => 37,
            DataTypes::end_date => 38,
            DataTypes::receiver_id => 39,
            DataTypes::sender_id => 40,
            DataTypes::signature => 41,
            DataTypes::signed => 42,
            DataTypes::message => 43,
            DataTypes::message_state => 44,
            DataTypes::last_ping => 45,
            DataTypes::ping_iota => 46,
            DataTypes::ping_clients => 47,
            DataTypes::matches => 48,
            DataTypes::omikron => 49,
            DataTypes::offset => 50,
            DataTypes::amount => 51,
            DataTypes::position => 52,
            DataTypes::name => 53,
            DataTypes::path => 54,
            DataTypes::codec => 55,
            DataTypes::function => 56,
            DataTypes::payload => 57,
            DataTypes::result => 58,
            DataTypes::interactables => 59,
            DataTypes::want_to_watch => 60,
            DataTypes::watcher => 61,
            DataTypes::created_at => 62,
            DataTypes::username => 63,
            DataTypes::display => 64,
            DataTypes::avatar => 65,
            DataTypes::about => 66,
            DataTypes::status => 67,
            DataTypes::public_key => 68,
            DataTypes::sub_level => 69,
            DataTypes::sub_end => 70,
            DataTypes::community_address => 71,
            DataTypes::challenge => 72,
            DataTypes::community_title => 73,
            DataTypes::communities => 74,
            DataTypes::rho_connections => 75,
            DataTypes::user => 76,
            DataTypes::online_status => 77,
            DataTypes::omikron_id => 78,
            DataTypes::omikron_connections => 79,
            DataTypes::reset_token => 80,
            DataTypes::new_token => 81,
            DataTypes::call_invited => 82,
            DataTypes::call_members => 83,
            DataTypes::calls => 84,
            DataTypes::timeout => 85,
            DataTypes::has_admin => 86,
        }
    }

    /// The identifier at position `n`, or `error_protocol` past the last one.
    pub open spec fn numbered(n: u8) -> DataTypes {
        match n {
            0 => DataTypes::error_type,
            1 => DataTypes::error_protocol,
            2 => DataTypes::accepted_ids,
            3 => DataTypes::uuid,
            4 => DataTypes::register_id,
            5 => DataTypes::link,
            6 => DataTypes::settings,
            7 => DataTypes::settings_name,
            8 => DataTypes::chat_partner_id,
            9 => DataTypes::chat_partner_name,
            10 => DataTypes::iota_id,
            11 => DataTypes::user_id,
            12 => DataTypes::user_ids,
            13 => DataTypes::iota_ids,
            14 => DataTypes::user_state,
            15 => DataTypes::user_states,
            16 => DataTypes::user_pings,
            17 => DataTypes::call_state,
            18 => DataTypes::screen_share,
            19 => DataTypes::private_key_hash,
            20 => DataTypes::accepted,
            21 => DataTypes::accepted_profiles,
            22 => DataTypes::denied_profiles,
            23 => DataTypes::content,
            24 => DataTypes::messages,
            25 => DataTypes::notifications,
            26 => DataTypes::send_time,
            27 => DataTypes::get_time,
            28 => DataTypes::get_variant,
            29 => DataTypes::shared_secret_own,
            30 => DataTypes::shared_secret_other,
            31 => DataTypes::shared_secret_sign,
            32 => DataTypes::shared_secret,
            33 => DataTypes::call_id,
            34 => DataTypes::call_token,
            35 => DataTypes::untill,
            36 => DataTypes::enabled,
            37 => DataTypes::start_date,
            38 => DataTypes::end_date,
            39 => DataTypes::receiver_id,
            40 => DataTypes::sender_id,
            41 => DataTypes::signature,
            42 => DataTypes::signed,
            43 => DataTypes::message,
            44 => DataTypes::message_state,
            45 => DataTypes::last_ping,
            46 => DataTypes::ping_iota,
            47 => DataTypes::ping_clients,
            48 => DataTypes::matches,
            49 => DataTypes::omikron,
            50 => DataTypes::offset,
            51 => DataTypes::amount,
            52 => DataTypes::position,
            53 => DataTypes::name,
            54 => DataTypes::path,
            55 => DataTypes::codec,
            56 => DataTypes::function,
            57 => DataTypes::payload,
            58 => DataTypes::result,
            59 => DataTypes::interactables,
            60 => DataTypes::want_to_watch,
            61 => DataTypes::watcher,
            62 => DataTypes::created_at,
            63 => DataTypes::username,
            64 => DataTypes::display,
            65 => DataTypes::avatar,
            66 => DataTypes::about,
            67 => DataTypes::status,
            68 => DataTypes::public_key,
            69 => DataTypes::sub_level,
            70 => DataTypes::sub_end,
            71 => DataTypes::community_address,
            72 => DataTypes::challenge,
            73 => DataTypes::community_title,
            74 => DataTypes::communities,
            75 => DataTypes::rho_connections,
            76 => DataTypes::user,
            77 => DataTypes::online_status,
            78 => DataTypes::omikron_id,
            79 => DataTypes::omikron_connections,
            80 => DataTypes::reset_token,
            81 => DataTypes::new_token,
            82 => DataTypes::call_invited,
            83 => DataTypes::call_members,
            84 => DataTypes::calls,
            85 => DataTypes::timeout,
            86 => DataTypes::has_admin,
            _ => DataTypes::error_protocol,
        }
    }

    /// The identifier as written in the declaration.
    pub open spec fn name(self) -> Seq<char> {
        match self {
            DataTypes::error_type => "error_type"@,
            DataTypes::error_protocol => "error_protocol"@,
            DataTypes::accepted_ids => "accepted_ids"@,
            DataTypes::uuid => "uuid"@,
            DataTypes::register_id => "register_id"@,
            DataTypes::link => "link"@,
            DataTypes::settings => "settings"@,
            DataTypes::settings_name => "settings_name"@,
            DataTypes::chat_partner_id => "chat_partner_id"@,
            DataTypes::chat_partner_name => "chat_partner_name"@,
            DataTypes::iota_id => "iota_id"@,
            DataTypes::user_id => "user_id"@,
            DataTypes::user_ids => "user_ids"@,
            DataTypes::iota_ids => "iota_ids"@,
            DataTypes::user_state => "user_state"@,
            DataTypes::user_states => "user_states"@,
            DataTypes::user_pings => "user_pings"@,
            DataTypes::call_state => "call_state"@,
            DataTypes::screen_share => "screen_share"@,
            DataTypes::private_key_hash => "private_key_hash"@,
            DataTypes::accepted => "accepted"@,
            DataTypes::accepted_profiles => "accepted_profiles"@,
            DataTypes::denied_profiles => "denied_profiles"@,
            DataTypes::content => "content"@,
            DataTypes::messages => "messages"@,
            DataTypes::notifications => "notifications"@,
            DataTypes::send_time => "send_time"@,
            DataTypes::get_time => "get_time"@,
            DataTypes::get_variant => "get_variant"@,
            DataTypes::shared_secret_own => "shared_secret_own"@,
            DataTypes::shared_secret_other => "shared_secret_other"@,
            DataTypes::shared_secret_sign => "shared_secret_sign"@,
            DataTypes::shared_secret => "shared_secret"@,
            DataTypes::call_id => "call_id"@,
            DataTypes::call_token => "call_token"@,
            DataTypes::untill => "untill"@,
            DataTypes::enabled => "enabled"@,
            DataTypes::start_date => "start_date"@,
            DataTypes::end_date => "end_date"@,
            DataTypes::receiver_id => "receiver_id"@,
            DataTypes::sender_id => "sender_id"@,
            DataTypes::signature => "signature"@,
            DataTypes::signed => "signed"@,
            DataTypes::message => "message"@,
            DataTypes::message_state => "message_state"@,
            DataTypes::last_ping => "last_ping"@,
            DataTypes::ping_iota => "ping_iota"@,
            DataTypes::ping_clients => "ping_clients"@,
            DataTypes::matches => "matches"@,
            DataTypes::omikron => "omikron"@,
            DataTypes::offset => "offset"@,
            DataTypes::amount => "amount"@,
            DataTypes::position => "position"@,
            DataTypes::name => "name"@,
            DataTypes::path => "path"@,
            DataTypes::codec => "codec"@,
            DataTypes::function => "function"@,
            DataTypes::payload => "payload"@,
            DataTypes::result => "result"@,
            DataTypes::interactables => "interactables"@,
            DataTypes::want_to_watch => "want_to_watch"@,
            DataTypes::watcher => "watcher"@,
            DataTypes::created_at => "created_at"@,
            DataTypes::username => "username"@,
            DataTypes::display => "display"@,
            DataTypes::avatar => "avatar"@,
            DataTypes::about => "about"@,
            DataTypes::status => "status"@,
            DataTypes::public_key => "public_key"@,
            DataTypes::sub_level => "sub_level"@,
            DataTypes::sub_end => "sub_end"@,
            DataTypes::community_address => "community_address"@,
            DataTypes::challenge => "challenge"@,
            DataTypes::community_title => "community_title"@,
            DataTypes::communities => "communities"@,
            DataTypes::rho_connections => "rho_connections"@,
            DataTypes::user => "user"@,
            DataTypes::online_status => "online_status"@,
            DataTypes::omikron_id => "omikron_id"@,
            DataTypes::omikron_connections => "omikron_connections"@,
            DataTypes::reset_token => "reset_token"@,
            DataTypes::new_token => "new_token"@,
            DataTypes::call_invited => "call_invited"@,
            DataTypes::call_members => "call_members"@,
            DataTypes::calls => "calls"@,
            DataTypes::timeout => "timeout"@,
            DataTypes::has_admin => "has_admin"@,
        }
    }

    /// The kind of value that a field with this identifier carries.
    pub open spec fn kind_of(self) -> DataKind {
        match self {
            DataTypes::error_type
            | DataTypes::uuid
            | DataTypes::link
            | DataTypes::settings_name
            | DataTypes::chat_partner_name
            | DataTypes::user_state
            | DataTypes::call_state
            | DataTypes::private_key_hash
            | DataTypes::content
            | DataTypes::shared_secret_own
            | DataTypes::shared_secret_other
            | DataTypes::shared_secret_sign
            | DataTypes::shared_secret
            | DataTypes::call_token
            | DataTypes::signature
            | DataTypes::message
            | DataTypes::message_state
            | DataTypes::name
            | DataTypes::path
            | DataTypes::codec
            | DataTypes::function
            | DataTypes::username
            | DataTypes::display
            | DataTypes::avatar
            | DataTypes::about
            | DataTypes::public_key
            | DataTypes::challenge
            | DataTypes::reset_token
            | DataTypes::new_token => DataKind::Str,
            DataTypes::error_protocol
            | DataTypes::accepted_profiles
            | DataTypes::denied_profiles
            | DataTypes::get_variant
            | DataTypes::omikron
            | DataTypes::interactables
            | DataTypes::want_to_watch
            | DataTypes::watcher
            | DataTypes::created_at
            | DataTypes::status
            | DataTypes::sub_end
            | DataTypes::community_address
            | DataTypes::community_title
            | DataTypes::online_status
            | DataTypes::call_invited
            | DataTypes::call_members
            | DataTypes::calls => DataKind::Null,
            DataTypes::accepted_ids
            | DataTypes::user_ids
            | DataTypes::iota_ids
            | DataTypes::notifications
            | DataTypes::send_time
            | DataTypes::get_time
            | DataTypes::last_ping
            | DataTypes::ping_iota
            | DataTypes::omikron_connections => DataKind::Array(Box::new(DataKind::Number)),
            DataTypes::register_id
            | DataTypes::chat_partner_id
            | DataTypes::iota_id
            | DataTypes::user_id
            | DataTypes::call_id
            | DataTypes::untill
            | DataTypes::start_date
            | DataTypes::end_date
            | DataTypes::receiver_id
            | DataTypes::sender_id
            | DataTypes::offset
            | DataTypes::amount
            | DataTypes::position
            | DataTypes::sub_level
            | DataTypes::omikron_id
            | DataTypes::timeout => DataKind::Number,
            DataTypes::settings
            | DataTypes::user_pings
            | DataTypes::ping_clients
            | DataTypes::payload
            | DataTypes::result
            | DataTypes::user => DataKind::Container,
            DataTypes::user_states => DataKind::Array(Box::new(DataKind::Str)),
            DataTypes::screen_share
            | DataTypes::accepted
            | DataTypes::enabled
            | DataTypes::signed
            | DataTypes::has_admin => DataKind::Bool,
            DataTypes::messages
            | DataTypes::matches
            | DataTypes::communities
            | DataTypes::rho_connections => DataKind::Array(Box::new(DataKind::Container)),
        }
    }

    /// The kind of value that a field with this identifier carries.
    pub fn expected_kind(&self) -> (k: DataKind)
        ensures
            k == self.kind_of(),
    {
        match self {
            DataTypes::error_type
            | DataTypes::uuid
            | DataTypes::link
            | DataTypes::settings_name
            | DataTypes::chat_partner_name
            | DataTypes::user_state
            | DataTypes::call_state
            | DataTypes::private_key_hash
            | DataTypes::content
            | DataTypes::shared_secret_own
            | DataTypes::shared_secret_other
            | DataTypes::shared_secret_sign
            | DataTypes::shared_secret
            | DataTypes::call_token
            | DataTypes::signature
            | DataTypes::message
            | DataTypes::message_state
            | DataTypes::name
            | DataTypes::path
            | DataTypes::codec
            | DataTypes::function
            | DataTypes::username
            | DataTypes::display
            | DataTypes::avatar
            | DataTypes::about
            | DataTypes::public_key
            | DataTypes::challenge
            | DataTypes::reset_token
            | DataTypes::new_token => DataKind::Str,
            DataTypes::error_protocol
            | DataTypes::accepted_profiles
            | DataTypes::denied_profiles
            | DataTypes::get_variant
            | DataTypes::omikron
            | DataTypes::interactables
            | DataTypes::want_to_watch
            | DataTypes::watcher
            | DataTypes::created_at
            | DataTypes::status
            | DataTypes::sub_end
            | DataTypes::community_address
            | DataTypes::community_title
            | DataTypes::online_status
            | DataTypes::call_invited
            | DataTypes::call_members
            | DataTypes::calls => DataKind::Null,
            DataTypes::accepted_ids
            | DataTypes::user_ids
            | DataTypes::iota_ids
            | DataTypes::notifications
            | DataTypes::send_time
            | DataTypes::get_time
            | DataTypes::last_ping
            | DataTypes::ping_iota
            | DataTypes::omikron_connections => DataKind::Array(Box::new(DataKind::Number)),
            DataTypes::register_id
            | DataTypes::chat_partner_id
            | DataTypes::iota_id
            | DataTypes::user_id
            | DataTypes::call_id
            | DataTypes::untill
            | DataTypes::start_date
            | DataTypes::end_date
            | DataTypes::receiver_id
            | DataTypes::sender_id
            | DataTypes::offset
            | DataTypes::amount
            | DataTypes::position
            | DataTypes::sub_level
            | DataTypes::omikron_id
            | DataTypes::timeout => DataKind::Number,
            DataTypes::settings
            | DataTypes::user_pings
            | DataTypes::ping_clients
            | DataTypes::payload
            | DataTypes::result
            | DataTypes::user => DataKind::Container,
            DataTypes::user_states => DataKind::Array(Box::new(DataKind::Str)),
            DataTypes::screen_share
            | DataTypes::accepted
            | DataTypes::enabled
            | DataTypes::signed
            | DataTypes::has_admin => DataKind::Bool,
            DataTypes::messages
            | DataTypes::matches
            | DataTypes::communities
            | DataTypes::rho_connections => DataKind::Array(Box::new(DataKind::Container)),
        }
    }

    /// The position of this identifier in the declaration order.
    pub fn as_number(&self) -> (n: u8)
        ensures
            n == self.position(),
            n == *self as u8,
    {
        match self {
            DataTypes::error_type => 0,
            DataTypes::error_protocol => 1,
            DataTypes::accepted_ids => 2,
            DataTypes::uuid => 3,
            DataTypes::register_id => 4,
            DataTypes::link => 5,
            DataTypes::settings => 6,
            DataTypes::settings_name => 7,
            DataTypes::chat_partner_id => 8,
            DataTypes::chat_partner_name => 9,
            DataTypes::iota_id => 10,
            DataTypes::user_id => 11,
            DataTypes::user_ids => 12,
            DataTypes::iota_ids => 13,
            DataTypes::user_state => 14,
            DataTypes::user_states => 15,
            DataTypes::user_pings => 16,
            DataTypes::call_state => 17,
            DataTypes::screen_share => 18,
            DataTypes::private_key_hash => 19,
            DataTypes::accepted => 20,
            DataTypes::accepted_profiles => 21,
            DataTypes::denied_profiles => 22,
            DataTypes::content => 23,
            DataTypes::messages => 24,
            DataTypes::notifications => 25,
            DataTypes::send_time => 26,
            DataTypes::get_time => 27,
            DataTypes::get_variant => 28,
            DataTypes::shared_secret_own => 29,
            DataTypes::shared_secret_other => 30,
            DataTypes::shared_secret_sign => 31,
            DataTypes::shared_secret => 32,
            DataTypes::call_id => 33,
            DataTypes::call_token => 34,
            DataTypes::untill => 35,
            DataTypes::enabled => 36,
            DataTypes::start_date => 37,
            DataTypes::end_date => 38,
            DataTypes::receiver_id => 39,
            DataTypes::sender_id => 40,
            DataTypes::signature => 41,
            DataTypes::signed => 42,
            DataTypes::message => 43,
            DataTypes::message_state => 44,
            DataTypes::last_ping => 45,
            DataTypes::ping_iota => 46,
            DataTypes::ping_clients => 47,
            DataTypes::matches => 48,
            DataTypes::omikron => 49,
            DataTypes::offset => 50,
            DataTypes::amount => 51,
            DataTypes::position => 52,
            DataTypes::name => 53,
            DataTypes::path => 54,
            DataTypes::codec => 55,
            DataTypes::function => 56,
            DataTypes::payload => 57,
            DataTypes::result => 58,
            DataTypes::interactables => 59,
            DataTypes::want_to_watch => 60,
            DataTypes::watcher => 61,
            DataTypes::created_at => 62,
            DataTypes::username => 63,
            DataTypes::display => 64,
            DataTypes::avatar => 65,
            DataTypes::about => 66,
            DataTypes::status => 67,
            DataTypes::public_key => 68,
            DataTypes::sub_level => 69,
            DataTypes::sub_end => 70,
            DataTypes::community_address => 71,
            DataTypes::challenge => 72,
            DataTypes::community_title => 73,
            DataTypes::communities => 74,
            DataTypes::rho_connections => 75,
            DataTypes::user => 76,
            DataTypes::online_status => 77,
            DataTypes::omikron_id => 78,
            DataTypes::omikron_connections => 79,
            DataTypes::reset_token => 80,
            DataTypes::new_token => 81,
            DataTypes::call_invited => 82,
            DataTypes::call_members => 83,
            DataTypes::calls => 84,
            DataTypes::timeout => 85,
            DataTypes::has_admin => 86,
        }
    }

    /// The identifier at position `n`; a number past the last position
    /// gives `error_protocol`.
    pub fn from_number(n: u8) -> (t: DataTypes)
        ensures
            t == DataTypes::numbered(n),
            n < DATA_TYPE_COUNT ==> t as u8 == n,
            n >= DATA_TYPE_COUNT ==> t == DataTypes::error_protocol,
    {
        match n {
            0 => DataTypes::error_type,
            1 => DataTypes::error_protocol,
            2 => DataTypes::accepted_ids,
            3 => DataTypes::uuid,
            4 => DataTypes::register_id,
            5 => DataTypes::link,
            6 => DataTypes::settings,
            7 => DataTypes::settings_name,
            8 => DataTypes::chat_partner_id,
            9 => DataTypes::chat_partner_name,
            10 => DataTypes::iota_id,
            11 => DataTypes::user_id,
            12 => DataTypes::user_ids,
            13 => DataTypes::iota_ids,
            14 => DataTypes::user_state,
            15 => DataTypes::user_states,
            16 => DataTypes::user_pings,
            17 => DataTypes::call_state,
            18 => DataTypes::screen_share,
            19 => DataTypes::private_key_hash,
            20 => DataTypes::accepted,
            21 => DataTypes::accepted_profiles,
            22 => DataTypes::denied_profiles,
            23 => DataTypes::content,
            24 => DataTypes::messages,
            25 => DataTypes::notifications,
            26 => DataTypes::send_time,
            27 => DataTypes::get_time,
            28 => DataTypes::get_variant,
            29 => DataTypes::shared_secret_own,
            30 => DataTypes::shared_secret_other,
            31 => DataTypes::shared_secret_sign,
            32 => DataTypes::shared_secret,
            33 => DataTypes::call_id,
            34 => DataTypes::call_token,
            35 => DataTypes::untill,
            36 => DataTypes::enabled,
            37 => DataTypes::start_date,
            38 => DataTypes::end_date,
            39 => DataTypes::receiver_id,
            40 => DataTypes::sender_id,
            41 => DataTypes::signature,
            42 => DataTypes::signed,
            43 => DataTypes::message,
            44 => DataTypes::message_state,
            45 => DataTypes::last_ping,
            46 => DataTypes::ping_iota,
            47 => DataTypes::ping_clients,
            48 => DataTypes::matches,
            49 => DataTypes::omikron,
            50 => DataTypes::offset,
            51 => DataTypes::amount,
            52 => DataTypes::position,
            53 => DataTypes::name,
            54 => DataTypes::path,
            55 => DataTypes::codec,
            56 => DataTypes::function,
            57 => DataTypes::payload,
            58 => DataTypes::result,
            59 => DataTypes::interactables,
            60 => DataTypes::want_to_watch,
            61 => DataTypes::watcher,
            62 => DataTypes::created_at,
            63 => DataTypes::username,
            64 => DataTypes::display,
            65 => DataTypes::avatar,
            66 => DataTypes::about,
            67 => DataTypes::status,
            68 => DataTypes::public_key,
            69 => DataTypes::sub_level,
            70 => DataTypes::sub_end,
            71 => DataTypes::community_address,
            72 => DataTypes::challenge,
            73 => DataTypes::community_title,
            74 => DataTypes::communities,
            75 => DataTypes::rho_connections,
            76 => DataTypes::user,
            77 => DataTypes::online_status,
            78 => DataTypes::omikron_id,
            79 => DataTypes::omikron_connections,
            80 => DataTypes::reset_token,
            81 => DataTypes::new_token,
            82 => DataTypes::call_invited,
            83 => DataTypes::call_members,
            84 => DataTypes::calls,
            85 => DataTypes::timeout,
            86 => DataTypes::has_admin,
            _ => DataTypes::error_protocol,
        }
    }

    /// The identifier's name, as its `Debug` form prints it.
    pub fn to_string(&self) -> (s: String)
        ensures
            s@ == self.name(),
    {
        match self {
            DataTypes::error_type => "error_type".to_owned(),
            DataTypes::error_protocol => "error_protocol".to_owned(),
            DataTypes::accepted_ids => "accepted_ids".to_owned(),
            DataTypes::uuid => "uuid".to_owned(),
            DataTypes::register_id => "register_id".to_owned(),
            DataTypes::link => "link".to_owned(),
            DataTypes::settings => "settings".to_owned(),
            DataTypes::settings_name => "settings_name".to_owned(),
            DataTypes::chat_partner_id => "chat_partner_id".to_owned(),
            DataTypes::chat_partner_name => "chat_partner_name".to_owned(),
            DataTypes::iota_id => "iota_id".to_owned(),
            DataTypes::user_id => "user_id".to_owned(),
            DataTypes::user_ids => "user_ids".to_owned(),
            DataTypes::iota_ids => "iota_ids".to_owned(),
            DataTypes::user_state => "user_state".to_owned(),
            DataTypes::user_states => "user_states".to_owned(),
            DataTypes::user_pings => "user_pings".to_owned(),
            DataTypes::call_state => "call_state".to_owned(),
            DataTypes::screen_share => "screen_share".to_owned(),
            DataTypes::private_key_hash => "private_key_hash".to_owned(),
            DataTypes::accepted => "accepted".to_owned(),
            DataTypes::accepted_profiles => "accepted_profiles".to_owned(),
            DataTypes::denied_profiles => "denied_profiles".to_owned(),
            DataTypes::content => "content".to_owned(),
            DataTypes::messages => "messages".to_owned(),
            DataTypes::notifications => "notifications".to_owned(),
            DataTypes::send_time => "send_time".to_owned(),
            DataTypes::get_time => "get_time".to_owned(),
            DataTypes::get_variant => "get_variant".to_owned(),
            DataTypes::shared_secret_own => "shared_secret_own".to_owned(),
            DataTypes::shared_secret_other => "shared_secret_other".to_owned(),
            DataTypes::shared_secret_sign => "shared_secret_sign".to_owned(),
            DataTypes::shared_secret => "shared_secret".to_owned(),
            DataTypes::call_id => "call_id".to_owned(),
            DataTypes::call_token => "call_token".to_owned(),
            DataTypes::untill => "untill".to_owned(),
            DataTypes::enabled => "enabled".to_owned(),
            DataTypes::start_date => "start_date".to_owned(),
            DataTypes::end_date => "end_date".to_owned(),
            DataTypes::receiver_id => "receiver_id".to_owned(),
            DataTypes::sender_id => "sender_id".to_owned(),
            DataTypes::signature => "signature".to_owned(),
            DataTypes::signed => "signed".to_owned(),
            DataTypes::message => "message".to_owned(),
            DataTypes::message_state => "message_state".to_owned(),
            DataTypes::last_ping => "last_ping".to_owned(),
            DataTypes::ping_iota => "ping_iota".to_owned(),
            DataTypes::ping_clients => "ping_clients".to_owned(),
            DataTypes::matches => "matches".to_owned(),
            DataTypes::omikron => "omikron".to_owned(),
            DataTypes::offset => "offset".to_owned(),
            DataTypes::amount => "amount".to_owned(),
            DataTypes::position => "position".to_owned(),
            DataTypes::name => "name".to_owned(),
            DataTypes::path => "path".to_owned(),
            DataTypes::codec => "codec".to_owned(),
            DataTypes::function => "function".to_owned(),
            DataTypes::payload => "payload".to_owned(),
            DataTypes::result => "result".to_owned(),
            DataTypes::interactables => "interactables".to_owned(),
            DataTypes::want_to_watch => "want_to_watch".to_owned(),
            DataTypes::watcher => "watcher".to_owned(),
            DataTypes::created_at => "created_at".to_owned(),
            DataTypes::username => "username".to_owned(),
            DataTypes::display => "display".to_owned(),
            DataTypes::avatar => "avatar".to_owned(),
            DataTypes::about => "about".to_owned(),
            DataTypes::status => "status".to_owned(),
            DataTypes::public_key => "public_key".to_owned(),
            DataTypes::sub_level => "sub_level".to_owned(),
            DataTypes::sub_end => "sub_end".to_owned(),
            DataTypes::community_address => "community_address".to_owned(),
            DataTypes::challenge => "challenge".to_owned(),
            DataTypes::community_title => "community_title".to_owned(),
            DataTypes::communities => "communities".to_owned(),
            DataTypes::rho_connections => "rho_connections".to_owned(),
            DataTypes::user => "user".to_owned(),
            DataTypes::online_status => "online_status".to_owned(),
            DataTypes::omikron_id => "omikron_id".to_owned(),
            DataTypes::omikron_connections => "omikron_connections".to_owned(),
            DataTypes::reset_token => "reset_token".to_owned(),
            DataTypes::new_token => "new_token".to_owned(),
            DataTypes::call_invited => "call_invited".to_owned(),
            DataTypes::call_members => "call_members".to_owned(),
            DataTypes::calls => "calls".to_owned(),
            DataTypes::timeout => "timeout".to_owned(),
            DataTypes::has_admin => "has_admin".to_owned(),
        }
    }
}

/// The form in which names are matched: lowercased, with every `_` taken
/// out.
pub open spec fn lookup_key(s: Seq<char>) -> Seq<char> {
    without_underscores(unicode_lowercase(s))
}

/// The first identifier, from position `n` on in declaration order, whose
/// name with its underscores taken out is `key`; `error_type` when none is.
/// (Names are lowercase already, so lowercasing them changes nothing.)
pub open spec fn first_match_from(key: Seq<char>, n: nat) -> DataTypes
    decreases DATA_TYPE_COUNT - n,
{
    if n >= DATA_TYPE_COUNT {
        DataTypes::error_type
    } else {
        let t = DataTypes::numbered(n as u8);
        if without_underscores(t.name()) == key {
            t
        } else {
            first_match_from(key, n + 1)
        }
    }
}

impl DataTypes {
    /// The identifier named by `p0`, compared without regard to case or
    /// underscores: the first one in declaration order whose name matches,
    /// or `error_type` when none does. For an ASCII input the lowercasing
    /// is that of `A` to `Z`.
    pub fn parse(p0: String) -> (t: DataTypes)
        ensures
            t == first_match_from(lookup_key(p0@), 0),
            all_ascii(p0@) ==> t == first_match_from(without_underscores(ascii_lowercase(p0@)), 0),
    {
        let key = remove_underscores(&lowercase_chars(p0.as_str()));
        let mut n: u8 = 0;
        while n < DATA_TYPE_COUNT
            invariant
                n <= DATA_TYPE_COUNT,
                key@ == lookup_key(p0@),
                all_ascii(p0@) ==> key@ == without_underscores(ascii_lowercase(p0@)),
                first_match_from(key@, 0) == first_match_from(key@, n as nat),
            decreases DATA_TYPE_COUNT - n,
        {
            let candidate = DataTypes::from_number(n);
            let name = candidate.to_string();
            let lowered = lowercase_chars(name.as_str());
            proof {
                lemma_name_is_lowercase(candidate);
            }
            let candidate_key = remove_underscores(&lowered);
            if same_chars(&candidate_key, &key) {
                return candidate;
            }
            n = n + 1;
        }
        DataTypes::error_type
    }
}

/// Every name is written in ASCII lowercase letters and underscores, so
/// lowercasing leaves it as it is.
pub proof fn lemma_name_is_lowercase(t: DataTypes)
    ensures
        all_ascii(t.name()),
        ascii_lowercase(t.name()) == t.name(),
{
    match t {
        DataTypes::error_type => {
            reveal_strlit("error_type");
            assert(ascii_lowercase(t.name()) =~= t.name());
        },
        DataTypes::error_protocol => {
            reveal_strlit("error_protocol");
            assert(ascii_lowercase(t.name()) =~= t.name());
        },
        DataTypes::accepted_ids => {
            reveal_strlit("accepted_ids");
            assert(ascii_lowercase(t.name()) =~= t.name());
        },
        DataTypes::uuid => {
            reveal_strlit("uuid");
            assert(ascii_lowercase(t.name()) =~= t.name());
        },
        DataTypes::register_id => {
            reveal_strlit("register_id");
            assert(ascii_lowercase(t.name()) =~= t.name());
        },
        DataTypes::link => {
            reveal_strlit("link");
            assert(ascii_lowercase(t.name()) =~= t.name());
        },
        DataTypes::settings => {
            reveal_strlit("settings");
            assert(ascii_lowercase(t.name()) =~= t.name());
        },
        DataTypes::settings_name => {
            reveal_strlit("settings_name");
            assert(ascii_lowercase(t.name()) =~= t.name());
        },
        DataTypes::chat_partner_id => {
            reveal_strlit("chat_partner_id");
            assert(ascii_lowercase(t.name()) =~= t.name());
        },
        DataTypes::chat_partner_name => {
            reveal_strlit("chat_partner_name");
            assert(ascii_lowercase(t.name()) =~= t.name());
        },
        DataTypes::iota_id => {
            reveal_strlit("iota_id");
            assert(ascii_lowercase(t.name()) =~= t.name());
        },
        DataTypes::user_id => {
            reveal_strlit("user_id");
            assert(ascii_lowercase(t.name()) =~= t.name());
        },
        DataTypes::user_ids => {
            reveal_strlit("user_ids");
            assert(ascii_lowercase(t.name()) =~= t.name());
        },
        DataTypes::iota_ids => {
            reveal_strlit("iota_ids");
            assert(ascii_lowercase(t.name()) =~= t.name());
        },
        DataTypes::user_state => {
            reveal_strlit("user_state");
            assert(ascii_lowercase(t.name()) =~= t.name());
        },
        DataTypes::user_states => {
            reveal_strlit("user_states");
            assert(ascii_lowercase(t.name()) =~= t.name());
        },
        DataTypes::user_pings => {
            reveal_strlit("user_pings");
            assert(ascii_lowercase(t.name()) =~= t.name());
        },
        DataTypes::call_state => {
            reveal_strlit("call_state");
            assert(ascii_lowercase(t.name()) =~= t.name());
        },
        DataTypes::screen_share => {
            reveal_strlit("screen_share");
            assert(ascii_lowercase(t.name()) =~= t.name());
        },
        DataTypes::private_key_hash => {
            reveal_strlit("private_key_hash");
            assert(ascii_lowercase(t.name()) =~= t.name());
        },
        DataTypes::accepted => {
            reveal_strlit("accepted");
            assert(ascii_lowercase(t.name()) =~= t.name());
        },
        DataTypes::accepted_profiles => {
            reveal_strlit("accepted_profiles");
            assert(ascii_lowercase(t.name()) =~= t.name());
        },
        DataTypes::denied_profiles => {
            reveal_strlit("denied_profiles");
            assert(ascii_lowercase(t.name()) =~= t.name());
        },
        DataTypes::content => {
            reveal_strlit("content");
            assert(ascii_lowercase(t.name()) =~= t.name());
        },
        DataTypes::messages => {
            reveal_strlit("messages");
            assert(ascii_lowercase(t.name()) =~= t.name());
        },
        DataTypes::notifications => {
            reveal_strlit("notifications");
            assert(ascii_lowercase(t.name()) =~= t.name());
        },
        DataTypes::send_time => {
            reveal_strlit("send_time");
            assert(ascii_lowercase(t.name()) =~= t.name());
        },
        DataTypes::get_time => {
            reveal_strlit("get_time");
            assert(ascii_lowercase(t.name()) =~= t.name());
        },
        DataTypes::get_variant => {
            reveal_strlit("get_variant");
            assert(ascii_lowercase(t.name()) =~= t.name());
        },
        DataTypes::shared_secret_own => {
            reveal_strlit("shared_secret_own");
            assert(ascii_lowercase(t.name()) =~= t.name());
        },
        DataTypes::shared_secret_other => {
            reveal_strlit("shared_secret_other");
            assert(ascii_lowercase(t.name()) =~= t.name());
        },
        DataTypes::shared_secret_sign => {
            reveal_strlit("shared_secret_sign");
            assert(ascii_lowercase(t.name()) =~= t.name());
        },
        DataTypes::shared_secret => {
            reveal_strlit("shared_secret");
            assert(ascii_lowercase(t.name()) =~= t.name());
        },
        DataTypes::call_id => {
            reveal_strlit("call_id");
            assert(ascii_lowercase(t.name()) =~= t.name());
        },
        DataTypes::call_token => {
            reveal_strlit("call_token");
            assert(ascii_lowercase(t.name()) =~= t.name());
        },
        DataTypes::untill => {
            reveal_strlit("untill");
            assert(ascii_lowercase(t.name()) =~= t.name());
        },
        DataTypes::enabled => {
            reveal_strlit("enabled");
            assert(ascii_lowercase(t.name()) =~= t.name());
        },
        DataTypes::start_date => {
            reveal_strlit("start_date");
            assert(ascii_lowercase(t.name()) =~= t.name());
        },
        DataTypes::end_date => {
            reveal_strlit("end_date");
            assert(ascii_lowercase(t.name()) =~= t.name());
        },
        DataTypes::receiver_id => {
            reveal_strlit("receiver_id");
            assert(ascii_lowercase(t.name()) =~= t.name());
        },
        DataTypes::sender_id => {
            reveal_strlit("sender_id");
            assert(ascii_lowercase(t.name()) =~= t.name());
        },
        DataTypes::signature => {
            reveal_strlit("signature");
            assert(ascii_lowercase(t.name()) =~= t.name());
        },
        DataTypes::signed => {
            reveal_strlit("signed");
            assert(ascii_lowercase(t.name()) =~= t.name());
        },
        DataTypes::message => {
            reveal_strlit("message");
            assert(ascii_lowercase(t.name()) =~= t.name());
        },
        DataTypes::message_state => {
            reveal_strlit("message_state");
            assert(ascii_lowercase(t.name()) =~= t.name());
        },
        DataTypes::last_ping => {
            reveal_strlit("last_ping");
            assert(ascii_lowercase(t.name()) =~= t.name());
        },
        DataTypes::ping_iota => {
            reveal_strlit("ping_iota");
            assert(ascii_lowercase(t.name()) =~= t.name());
        },
        DataTypes::ping_clients => {
            reveal_strlit("ping_clients");
            assert(ascii_lowercase(t.name()) =~= t.name());
        },
        DataTypes::matches => {
            reveal_strlit("matches");
            assert(ascii_lowercase(t.name()) =~= t.name());
        },
        DataTypes::omikron => {
            reveal_strlit("omikron");
            assert(ascii_lowercase(t.name()) =~= t.name());
        },
        DataTypes::offset => {
            reveal_strlit("offset");
            assert(ascii_lowercase(t.name()) =~= t.name());
        },
        DataTypes::amount => {
            reveal_strlit("amount");
            assert(ascii_lowercase(t.name()) =~= t.name());
        },
        DataTypes::position => {
            reveal_strlit("position");
            assert(ascii_lowercase(t.name()) =~= t.name());
        },
        DataTypes::name => {
            reveal_strlit("name");
            assert(ascii_lowercase(t.name()) =~= t.name());
        },
        DataTypes::path => {
            reveal_strlit("path");
            assert(ascii_lowercase(t.name()) =~= t.name());
        },
        DataTypes::codec => {
            reveal_strlit("codec");
            assert(ascii_lowercase(t.name()) =~= t.name());
        },
        DataTypes::function => {
            reveal_strlit("function");
            assert(ascii_lowercase(t.name()) =~= t.name());
        },
        DataTypes::payload => {
            reveal_strlit("payload");
            assert(ascii_lowercase(t.name()) =~= t.name());
        },
        DataTypes::result => {
            reveal_strlit("result");
            assert(ascii_lowercase(t.name()) =~= t.name());
        },
        DataTypes::interactables => {
            reveal_strlit("interactables");
            assert(ascii_lowercase(t.name()) =~= t.name());
        },
        DataTypes::want_to_watch => {
            reveal_strlit("want_to_watch");
            assert(ascii_lowercase(t.name()) =~= t.name());
        },
        DataTypes::watcher => {
            reveal_strlit("watcher");
            assert(ascii_lowercase(t.name()) =~= t.name());
        },
        DataTypes::created_at => {
            reveal_strlit("created_at");
            assert(ascii_lowercase(t.name()) =~= t.name());
        },
        DataTypes::username => {
            reveal_strlit("username");
            assert(ascii_lowercase(t.name()) =~= t.name());
        },
        DataTypes::display => {
            reveal_strlit("display");
            assert(ascii_lowercase(t.name()) =~= t.name());
        },
        DataTypes::avatar => {
            reveal_strlit("avatar");
            assert(ascii_lowercase(t.name()) =~= t.name());
        },
        DataTypes::about => {
            reveal_strlit("about");
            assert(ascii_lowercase(t.name()) =~= t.name());
        },
        DataTypes::status => {
            reveal_strlit("status");
            assert(ascii_lowercase(t.name()) =~= t.name());
        },
        DataTypes::public_key => {
            reveal_strlit("public_key");
            assert(ascii_lowercase(t.name()) =~= t.name());
        },
        DataTypes::sub_level => {
            reveal_strlit("sub_level");
            assert(ascii_lowercase(t.name()) =~= t.name());
        },
        DataTypes::sub_end => {
            reveal_strlit("sub_end");
            assert(ascii_lowercase(t.name()) =~= t.name());
        },
        DataTypes::community_address => {
            reveal_strlit("community_address");
            assert(ascii_lowercase(t.name()) =~= t.name());
        },
        DataTypes::challenge => {
            reveal_strlit("challenge");
            assert(ascii_lowercase(t.name()) =~= t.name());
        },
        DataTypes::community_title => {
            reveal_strlit("community_title");
            assert(ascii_lowercase(t.name()) =~= t.name());
        },
        DataTypes::communities => {
            reveal_strlit("communities");
            assert(ascii_lowercase(t.name()) =~= t.name());
        },
        DataTypes::rho_connections => {
            reveal_strlit("rho_connections");
            assert(ascii_lowercase(t.name()) =~= t.name());
        },
        DataTypes::user => {
            reveal_strlit("user");
            assert(ascii_lowercase(t.name()) =~= t.name());
        },
        DataTypes::online_status => {
            reveal_strlit("online_status");
            assert(ascii_lowercase(t.name()) =~= t.name());
        },
        DataTypes::omikron_id => {
            reveal_strlit("omikron_id");
            assert(ascii_lowercase(t.name()) =~= t.name());
        },
        DataTypes::omikron_connections => {
            reveal_strlit("omikron_connections");
            assert(ascii_lowercase(t.name()) =~= t.name());
        },
        DataTypes::reset_token => {
            reveal_strlit("reset_token");
            assert(ascii_lowercase(t.name()) =~= t.name());
        },
        DataTypes::new_token => {
            reveal_strlit("new_token");
            assert(ascii_lowercase(t.name()) =~= t.name());
        },
        DataTypes::call_invited => {
            reveal_strlit("call_invited");
            assert(ascii_lowercase(t.name()) =~= t.name());
        },
        DataTypes::call_members => {
            reveal_strlit("call_members");
            assert(ascii_lowercase(t.name()) =~= t.name());
        },
        DataTypes::calls => {
            reveal_strlit("calls");
            assert(ascii_lowercase(t.name()) =~= t.name());
        },
        DataTypes::timeout => {
            reveal_strlit("timeout");
            assert(ascii_lowercase(t.name()) =~= t.name());
        },
        DataTypes::has_admin => {
            reveal_strlit("has_admin");
            assert(ascii_lowercase(t.name()) =~= t.name());
        },
    }
}

/// A few features of a lookup key: its length, its first and third
/// characters, and its last two.
spec fn key_fingerprint(k: Seq<char>) -> (nat, char, char, char, char) {
    (k.len(), k[0], k[2], k[k.len() - 1], k[k.len() - 2])
}

/// The identifier whose lookup key has the fingerprint `f`.
spec fn fingerprint_owner(f: (nat, char, char, char, char)) -> DataTypes {
    if f == (9nat, 'e', 'r', 'e', 'p') {
        DataTypes::error_type
    } else if f == (13nat, 'e', 'r', 'l', 'o') {
        DataTypes::error_protocol
    } else if f == (11nat, 'a', 'c', 's', 'd') {
        DataTypes::accepted_ids
    } else if f == (4nat, 'u', 'i', 'd', 'i') {
        DataTypes::uuid
    } else if f == (10nat, 'r', 'g', 'd', 'i') {
        DataTypes::register_id
    } else if f == (4nat, 'l', 'n', 'k', 'n') {
        DataTypes::link
    } else if f == (8nat, 's', 't', 's', 'g') {
        DataTypes::settings
    } else if f == (12nat, 's', 't', 'e', 'm') {
        DataTypes::settings_name
    } else if f == (13nat, 'c', 'a', 'd', 'i') {
        DataTypes::chat_partner_id
    } else if f == (15nat, 'c', 'a', 'e', 'm') {
        DataTypes::chat_partner_name
    } else if f == (6nat, 'i', 't', 'd', 'i') {
        DataTypes::iota_id
    } else if f == (6nat, 'u', 'e', 'd', 'i') {
        DataTypes::user_id
    } else if f == (7nat, 'u', 'e', 's', 'd') {
        DataTypes::user_ids
    } else if f == (7nat, 'i', 't', 's', 'd') {
        DataTypes::iota_ids
    } else if f == (9nat, 'u', 'e', 'e', 't') {
        DataTypes::user_state
    } else if f == (10nat, 'u', 'e', 's', 'e') {
        DataTypes::user_states
    } else if f == (9nat, 'u', 'e', 's', 'g') {
        DataTypes::user_pings
    } else if f == (9nat, 'c', 'l', 'e', 't') {
        DataTypes::call_state
    } else if f == (11nat, 's', 'r', 'e', 'r') {
        DataTypes::screen_share
    } else if f == (14nat, 'p', 'i', 'h', 's') {
        DataTypes::private_key_hash
    } else if f == (8nat, 'a', 'c', 'd', 'e') {
        DataTypes::accepted
    } else if f == (16nat, 'a', 'c', 's', 'e') {
        DataTypes::accepted_profiles
    } else if f == (14nat, 'd', 'n', 's', 'e') {
        DataTypes::denied_profiles
    } else if f == (7nat, 'c', 'n', 't', 'n') {
        DataTypes::content
    } else if f == (8nat, 'm', 's', 's', 'e') {
        DataTypes::messages
    } else if f == (13nat, 'n', 't', 's', 'n') {
        DataTypes::notifications
    } else if f == (8nat, 's', 'n', 'e', 'm') {
        DataTypes::send_time
    } else if f == (7nat, 'g', 't', 'e', 'm') {
        DataTypes::get_time
    } else if f == (10nat, 'g', 't', 't', 'n') {
        DataTypes::get_variant
    } else if f == (15nat, 's', 'a', 'n', 'w') {
        DataTypes::shared_secret_own
    } else if f == (17nat, 's', 'a', 'r', 'e') {
        DataTypes::shared_secret_other
    } else if f == (16nat, 's', 'a', 'n', 'g') {
        DataTypes::shared_secret_sign
    } else if f == (12nat, 's', 'a', 't', 'e') {
        DataTypes::shared_secret
    } else if f == (6nat, 'c', 'l', 'd', 'i') {
        DataTypes::call_id
    } else if f == (9nat, 'c', 'l', 'n', 'e') {
        DataTypes::call_token
    } else if f == (6nat, 'u', 't', 'l', 'l') {
        DataTypes::untill
    } else if f == (7nat, 'e', 'a', 'd', 'e') {
        DataTypes::enabled
    } else if f == (9nat, 's', 'a', 'e', 't') {
        DataTypes::start_date
    } else if f == (7nat, 'e', 'd', 'e', 't') {
        DataTypes::end_date
    } else if f == (10nat, 'r', 'c', 'd', 'i') {
        DataTypes::receiver_id
    } else if f == (8nat, 's', 'n', 'd', 'i') {
        DataTypes::sender_id
    } else if f == (9nat, 's', 'g', 'e', 'r') {
        DataTypes::signature
    } else if f == (6nat, 's', 'g', 'd', 'e') {
        DataTypes::signed
    } else if f == (7nat, 'm', 's', 'e', 'g') {
        DataTypes::message
    } else if f == (12nat, 'm', 's', 'e', 't') {
        DataTypes::message_state
    } else if f == (8nat, 'l', 's', 'g', 'n') {
        DataTypes::last_ping
    } else if f == (8nat, 'p', 'n', 'a', 't') {
        DataTypes::ping_iota
    } else if f == (11nat, 'p', 'n', 's', 't') {
        DataTypes::ping_clients
    } else if f == (7nat, 'm', 't', 's', 'e') {
        DataTypes::matches
    } else if f == (7nat, 'o', 'i', 'n', 'o') {
        DataTypes::omikron
    } else if f == (6nat, 'o', 'f', 't', 'e') {
        DataTypes::offset
    } else if f == (6nat, 'a', 'o', 't', 'n') {
        DataTypes::amount
    } else if f == (8nat, 'p', 's', 'n', 'o') {
        DataTypes::position
    } else if f == (4nat, 'n', 'm', 'e', 'm') {
        DataTypes::name
    } else if f == (4nat, 'p', 't', 'h', 't') {
        DataTypes::path
    } else if f == (5nat, 'c', 'd', 'c', 'e') {
        DataTypes::codec
    } else if f == (8nat, 'f', 'n', 'n', 'o') {
        DataTypes::function
    } else if f == (7nat, 'p', 'y', 'd', 'a') {
        DataTypes::payload
    } else if f == (6nat, 'r', 's', 't', 'l') {
        DataTypes::result
    } else if f == (13nat, 'i', 't', 's', 'e') {
        DataTypes::interactables
    } else if f == (11nat, 'w', 'n', 'h', 'c') {
        DataTypes::want_to_watch
    } else if f == (7nat, 'w', 't', 'r', 'e') {
        DataTypes::watcher
    } else if f == (9nat, 'c', 'e', 't', 'a') {
        DataTypes::created_at
    } else if f == (8nat, 'u', 'e', 'e', 'm') {
        DataTypes::username
    } else if f == (7nat, 'd', 's', 'y', 'a') {
        DataTypes::display
    } else if f == (6nat, 'a', 'a', 'r', 'a') {
        DataTypes::avatar
    } else if f == (5nat, 'a', 'o', 't', 'u') {
        DataTypes::about
    } else if f == (6nat, 's', 'a', 's', 'u') {
        DataTypes::status
    } else if f == (9nat, 'p', 'b', 'y', 'e') {
        DataTypes::public_key
    } else if f == (8nat, 's', 'b', 'l', 'e') {
        DataTypes::sub_level
    } else if f == (6nat, 's', 'b', 'd', 'n') {
        DataTypes::sub_end
    } else if f == (16nat, 'c', 'm', 's', 's') {
        DataTypes::community_address
    } else if f == (9nat, 'c', 'a', 'e', 'g') {
        DataTypes::challenge
    } else if f == (14nat, 'c', 'm', 'e', 'l') {
        DataTypes::community_title
    } else if f == (11nat, 'c', 'm', 's', 'e') {
        DataTypes::communities
    } else if f == (14nat, 'r', 'o', 's', 'n') {
        DataTypes::rho_connections
    } else if f == (4nat, 'u', 'e', 'r', 'e') {
        DataTypes::user
    } else if f == (12nat, 'o', 'l', 's', 'u') {
        DataTypes::online_status
    } else if f == (9nat, 'o', 'i', 'd', 'i') {
        DataTypes::omikron_id
    } else if f == (18nat, 'o', 'i', 's', 'n') {
        DataTypes::omikron_connections
    } else if f == (10nat, 'r', 's', 'n', 'e') {
        DataTypes::reset_token
    } else if f == (8nat, 'n', 'w', 'n', 'e') {
        DataTypes::new_token
    } else if f == (11nat, 'c', 'l', 'd', 'e') {
        DataTypes::call_invited
    } else if f == (11nat, 'c', 'l', 's', 'r') {
        DataTypes::call_members
    } else if f == (5nat, 'c', 'l', 's', 'l') {
        DataTypes::calls
    } else if f == (7nat, 't', 'm', 't', 'u') {
        DataTypes::timeout
    } else if f == (8nat, 'h', 's', 'n', 'i') {
        DataTypes::has_admin
    } else {
        DataTypes::error_type
    }
}

/// The fingerprint of each identifier's lookup key.
spec fn fingerprint_of(t: DataTypes) -> (nat, char, char, char, char) {
    match t {
        DataTypes::error_type => (9nat, 'e', 'r', 'e', 'p'),
        DataTypes::error_protocol => (13nat, 'e', 'r', 'l', 'o'),
        DataTypes::accepted_ids => (11nat, 'a', 'c', 's', 'd'),
        DataTypes::uuid => (4nat, 'u', 'i', 'd', 'i'),
        DataTypes::register_id => (10nat, 'r', 'g', 'd', 'i'),
        DataTypes::link => (4nat, 'l', 'n', 'k', 'n'),
        DataTypes::settings => (8nat, 's', 't', 's', 'g'),
        DataTypes::settings_name => (12nat, 's', 't', 'e', 'm'),
        DataTypes::chat_partner_id => (13nat, 'c', 'a', 'd', 'i'),
        DataTypes::chat_partner_name => (15nat, 'c', 'a', 'e', 'm'),
        DataTypes::iota_id => (6nat, 'i', 't', 'd', 'i'),
        DataTypes::user_id => (6nat, 'u', 'e', 'd', 'i'),
        DataTypes::user_ids => (7nat, 'u', 'e', 's', 'd'),
        DataTypes::iota_ids => (7nat, 'i', 't', 's', 'd'),
        DataTypes::user_state => (9nat, 'u', 'e', 'e', 't'),
        DataTypes::user_states => (10nat, 'u', 'e', 's', 'e'),
        DataTypes::user_pings => (9nat, 'u', 'e', 's', 'g'),
        DataTypes::call_state => (9nat, 'c', 'l', 'e', 't'),
        DataTypes::screen_share => (11nat, 's', 'r', 'e', 'r'),
        DataTypes::private_key_hash => (14nat, 'p', 'i', 'h', 's'),
        DataTypes::accepted => (8nat, 'a', 'c', 'd', 'e'),
        DataTypes::accepted_profiles => (16nat, 'a', 'c', 's', 'e'),
        DataTypes::denied_profiles => (14nat, 'd', 'n', 's', 'e'),
        DataTypes::content => (7nat, 'c', 'n', 't', 'n'),
        DataTypes::messages => (8nat, 'm', 's', 's', 'e'),
        DataTypes::notifications => (13nat, 'n', 't', 's', 'n'),
        DataTypes::send_time => (8nat, 's', 'n', 'e', 'm'),
        DataTypes::get_time => (7nat, 'g', 't', 'e', 'm'),
        DataTypes::get_variant => (10nat, 'g', 't', 't', 'n'),
        DataTypes::shared_secret_own => (15nat, 's', 'a', 'n', 'w'),
        DataTypes::shared_secret_other => (17nat, 's', 'a', 'r', 'e'),
        DataTypes::shared_secret_sign => (16nat, 's', 'a', 'n', 'g'),
        DataTypes::shared_secret => (12nat, 's', 'a', 't', 'e'),
        DataTypes::call_id => (6nat, 'c', 'l', 'd', 'i'),
        DataTypes::call_token => (9nat, 'c', 'l', 'n', 'e'),
        DataTypes::untill => (6nat, 'u', 't', 'l', 'l'),
        DataTypes::enabled => (7nat, 'e', 'a', 'd', 'e'),
        DataTypes::start_date => (9nat, 's', 'a', 'e', 't'),
        DataTypes::end_date => (7nat, 'e', 'd', 'e', 't'),
        DataTypes::receiver_id => (10nat, 'r', 'c', 'd', 'i'),
        DataTypes::sender_id => (8nat, 's', 'n', 'd', 'i'),
        DataTypes::signature => (9nat, 's', 'g', 'e', 'r'),
        DataTypes::signed => (6nat, 's', 'g', 'd', 'e'),
        DataTypes::message => (7nat, 'm', 's', 'e', 'g'),
        DataTypes::message_state => (12nat, 'm', 's', 'e', 't'),
        DataTypes::last_ping => (8nat, 'l', 's', 'g', 'n'),
        DataTypes::ping_iota => (8nat, 'p', 'n', 'a', 't'),
        DataTypes::ping_clients => (11nat, 'p', 'n', 's', 't'),
        DataTypes::matches => (7nat, 'm', 't', 's', 'e'),
        DataTypes::omikron => (7nat, 'o', 'i', 'n', 'o'),
        DataTypes::offset => (6nat, 'o', 'f', 't', 'e'),
        DataTypes::amount => (6nat, 'a', 'o', 't', 'n'),
        DataTypes::position => (8nat, 'p', 's', 'n', 'o'),
        DataTypes::name => (4nat, 'n', 'm', 'e', 'm'),
        DataTypes::path => (4nat, 'p', 't', 'h', 't'),
        DataTypes::codec => (5nat, 'c', 'd', 'c', 'e'),
        DataTypes::function => (8nat, 'f', 'n', 'n', 'o'),
        DataTypes::payload => (7nat, 'p', 'y', 'd', 'a'),
        DataTypes::result => (6nat, 'r', 's', 't', 'l'),
        DataTypes::interactables => (13nat, 'i', 't', 's', 'e'),
        DataTypes::want_to_watch => (11nat, 'w', 'n', 'h', 'c'),
        DataTypes::watcher => (7nat, 'w', 't', 'r', 'e'),
        DataTypes::created_at => (9nat, 'c', 'e', 't', 'a'),
        DataTypes::username => (8nat, 'u', 'e', 'e', 'm'),
        DataTypes::display => (7nat, 'd', 's', 'y', 'a'),
        DataTypes::avatar => (6nat, 'a', 'a', 'r', 'a'),
        DataTypes::about => (5nat, 'a', 'o', 't', 'u'),
        DataTypes::status => (6nat, 's', 'a', 's', 'u'),
        DataTypes::public_key => (9nat, 'p', 'b', 'y', 'e'),
        DataTypes::sub_level => (8nat, 's', 'b', 'l', 'e'),
        DataTypes::sub_end => (6nat, 's', 'b', 'd', 'n'),
        DataTypes::community_address => (16nat, 'c', 'm', 's', 's'),
        DataTypes::challenge => (9nat, 'c', 'a', 'e', 'g'),
        DataTypes::community_title => (14nat, 'c', 'm', 'e', 'l'),
        DataTypes::communities => (11nat, 'c', 'm', 's', 'e'),
        DataTypes::rho_connections => (14nat, 'r', 'o', 's', 'n'),
        DataTypes::user => (4nat, 'u', 'e', 'r', 'e'),
        DataTypes::online_status => (12nat, 'o', 'l', 's', 'u'),
        DataTypes::omikron_id => (9nat, 'o', 'i', 'd', 'i'),
        DataTypes::omikron_connections => (18nat, 'o', 'i', 's', 'n'),
        DataTypes::reset_token => (10nat, 'r', 's', 'n', 'e'),
        DataTypes::new_token => (8nat, 'n', 'w', 'n', 'e'),
        DataTypes::call_invited => (11nat, 'c', 'l', 'd', 'e'),
        DataTypes::call_members => (11nat, 'c', 'l', 's', 'r'),
        DataTypes::calls => (5nat, 'c', 'l', 's', 'l'),
        DataTypes::timeout => (7nat, 't', 'm', 't', 'u'),
        DataTypes::has_admin => (8nat, 'h', 's', 'n', 'i'),
    }
}

/// The fingerprints tell the identifiers apart.
proof fn lemma_fingerprint_owner(t: DataTypes)
    ensures
        fingerprint_owner(fingerprint_of(t)) == t,
{
}

// The fingerprint of the lookup key of each name, one name at a time.
proof fn lemma_key_fingerprint_error_type()
    ensures
        key_fingerprint(without_underscores("error_type"@)) == (9nat, 'e', 'r', 'e', 'p'),
{
    reveal_strlit("error_type");
    reveal_with_fuel(without_underscores, 11);
}

proof fn lemma_key_fingerprint_error_protocol()
    ensures
        key_fingerprint(without_underscores("error_protocol"@)) == (13nat, 'e', 'r', 'l', 'o'),
{
    reveal_strlit("error_protocol");
    reveal_with_fuel(without_underscores, 15);
}

proof fn lemma_key_fingerprint_accepted_ids()
    ensures
        key_fingerprint(without_underscores("accepted_ids"@)) == (11nat, 'a', 'c', 's', 'd'),
{
    reveal_strlit("accepted_ids");
    reveal_with_fuel(without_underscores, 13);
}

proof fn lemma_key_fingerprint_uuid()
    ensures
        key_fingerprint(without_underscores("uuid"@)) == (4nat, 'u', 'i', 'd', 'i'),
{
    reveal_strlit("uuid");
    reveal_with_fuel(without_underscores, 5);
}

proof fn lemma_key_fingerprint_register_id()
    ensures
        key_fingerprint(without_underscores("register_id"@)) == (10nat, 'r', 'g', 'd', 'i'),
{
    reveal_strlit("register_id");
    reveal_with_fuel(without_underscores, 12);
}

proof fn lemma_key_fingerprint_link()
    ensures
        key_fingerprint(without_underscores("link"@)) == (4nat, 'l', 'n', 'k', 'n'),
{
    reveal_strlit("link");
    reveal_with_fuel(without_underscores, 5);
}

proof fn lemma_key_fingerprint_settings()
    ensures
        key_fingerprint(without_underscores("settings"@)) == (8nat, 's', 't', 's', 'g'),
{
    reveal_strlit("settings");
    reveal_with_fuel(without_underscores, 9);
}

proof fn lemma_key_fingerprint_settings_name()
    ensures
        key_fingerprint(without_underscores("settings_name"@)) == (12nat, 's', 't', 'e', 'm'),
{
    reveal_strlit("settings_name");
    reveal_with_fuel(without_underscores, 14);
}

proof fn lemma_key_fingerprint_chat_partner_id()
    ensures
        key_fingerprint(without_underscores("chat_partner_id"@)) == (13nat, 'c', 'a', 'd', 'i'),
{
    reveal_strlit("chat_partner_id");
    reveal_with_fuel(without_underscores, 16);
}

proof fn lemma_key_fingerprint_chat_partner_name()
    ensures
        key_fingerprint(without_underscores("chat_partner_name"@)) == (15nat, 'c', 'a', 'e', 'm'),
{
    reveal_strlit("chat_partner_name");
    reveal_with_fuel(without_underscores, 18);
}

proof fn lemma_key_fingerprint_iota_id()
    ensures
        key_fingerprint(without_underscores("iota_id"@)) == (6nat, 'i', 't', 'd', 'i'),
{
    reveal_strlit("iota_id");
    reveal_with_fuel(without_underscores, 8);
}

proof fn lemma_key_fingerprint_user_id()
    ensures
        key_fingerprint(without_underscores("user_id"@)) == (6nat, 'u', 'e', 'd', 'i'),
{
    reveal_strlit("user_id");
    reveal_with_fuel(without_underscores, 8);
}

proof fn lemma_key_fingerprint_user_ids()
    ensures
        key_fingerprint(without_underscores("user_ids"@)) == (7nat, 'u', 'e', 's', 'd'),
{
    reveal_strlit("user_ids");
    reveal_with_fuel(without_underscores, 9);
}

proof fn lemma_key_fingerprint_iota_ids()
    ensures
        key_fingerprint(without_underscores("iota_ids"@)) == (7nat, 'i', 't', 's', 'd'),
{
    reveal_strlit("iota_ids");
    reveal_with_fuel(without_underscores, 9);
}

proof fn lemma_key_fingerprint_user_state()
    ensures
        key_fingerprint(without_underscores("user_state"@)) == (9nat, 'u', 'e', 'e', 't'),
{
    reveal_strlit("user_state");
    reveal_with_fuel(without_underscores, 11);
}

proof fn lemma_key_fingerprint_user_states()
    ensures
        key_fingerprint(without_underscores("user_states"@)) == (10nat, 'u', 'e', 's', 'e'),
{
    reveal_strlit("user_states");
    reveal_with_fuel(without_underscores, 12);
}

proof fn lemma_key_fingerprint_user_pings()
    ensures
        key_fingerprint(without_underscores("user_pings"@)) == (9nat, 'u', 'e', 's', 'g'),
{
    reveal_strlit("user_pings");
    reveal_with_fuel(without_underscores, 11);
}

proof fn lemma_key_fingerprint_call_state()
    ensures
        key_fingerprint(without_underscores("call_state"@)) == (9nat, 'c', 'l', 'e', 't'),
{
    reveal_strlit("call_state");
    reveal_with_fuel(without_underscores, 11);
}

proof fn lemma_key_fingerprint_screen_share()
    ensures
        key_fingerprint(without_underscores("screen_share"@)) == (11nat, 's', 'r', 'e', 'r'),
{
    reveal_strlit("screen_share");
    reveal_with_fuel(without_underscores, 13);
}

proof fn lemma_key_fingerprint_private_key_hash()
    ensures
        key_fingerprint(without_underscores("private_key_hash"@)) == (14nat, 'p', 'i', 'h', 's'),
{
    reveal_strlit("private_key_hash");
    reveal_with_fuel(without_underscores, 17);
}

proof fn lemma_key_fingerprint_accepted()
    ensures
        key_fingerprint(without_underscores("accepted"@)) == (8nat, 'a', 'c', 'd', 'e'),
{
    reveal_strlit("accepted");
    reveal_with_fuel(without_underscores, 9);
}

proof fn lemma_key_fingerprint_accepted_profiles()
    ensures
        key_fingerprint(without_underscores("accepted_profiles"@)) == (16nat, 'a', 'c', 's', 'e'),
{
    reveal_strlit("accepted_profiles");
    reveal_with_fuel(without_underscores, 18);
}

proof fn lemma_key_fingerprint_denied_profiles()
    ensures
        key_fingerprint(without_underscores("denied_profiles"@)) == (14nat, 'd', 'n', 's', 'e'),
{
    reveal_strlit("denied_profiles");
    reveal_with_fuel(without_underscores, 16);
}

proof fn lemma_key_fingerprint_content()
    ensures
        key_fingerprint(without_underscores("content"@)) == (7nat, 'c', 'n', 't', 'n'),
{
    reveal_strlit("content");
    reveal_with_fuel(without_underscores, 8);
}

proof fn lemma_key_fingerprint_messages()
    ensures
        key_fingerprint(without_underscores("messages"@)) == (8nat, 'm', 's', 's', 'e'),
{
    reveal_strlit("messages");
    reveal_with_fuel(without_underscores, 9);
}

proof fn lemma_key_fingerprint_notifications()
    ensures
        key_fingerprint(without_underscores("notifications"@)) == (13nat, 'n', 't', 's', 'n'),
{
    reveal_strlit("notifications");
    reveal_with_fuel(without_underscores, 14);
}

proof fn lemma_key_fingerprint_send_time()
    ensures
        key_fingerprint(without_underscores("send_time"@)) == (8nat, 's', 'n', 'e', 'm'),
{
    reveal_strlit("send_time");
    reveal_with_fuel(without_underscores, 10);
}

proof fn lemma_key_fingerprint_get_time()
    ensures
        key_fingerprint(without_underscores("get_time"@)) == (7nat, 'g', 't', 'e', 'm'),
{
    reveal_strlit("get_time");
    reveal_with_fuel(without_underscores, 9);
}

proof fn lemma_key_fingerprint_get_variant()
    ensures
        key_fingerprint(without_underscores("get_variant"@)) == (10nat, 'g', 't', 't', 'n'),
{
    reveal_strlit("get_variant");
    reveal_with_fuel(without_underscores, 12);
}

proof fn lemma_key_fingerprint_shared_secret_own()
    ensures
        key_fingerprint(without_underscores("shared_secret_own"@)) == (15nat, 's', 'a', 'n', 'w'),
{
    reveal_strlit("shared_secret_own");
    reveal_with_fuel(without_underscores, 18);
}

proof fn lemma_key_fingerprint_shared_secret_other()
    ensures
        key_fingerprint(without_underscores("shared_secret_other"@)) == (17nat, 's', 'a', 'r', 'e'),
{
    reveal_strlit("shared_secret_other");
    reveal_with_fuel(without_underscores, 20);
}

proof fn lemma_key_fingerprint_shared_secret_sign()
    ensures
        key_fingerprint(without_underscores("shared_secret_sign"@)) == (16nat, 's', 'a', 'n', 'g'),
{
    reveal_strlit("shared_secret_sign");
    reveal_with_fuel(without_underscores, 19);
}

proof fn lemma_key_fingerprint_shared_secret()
    ensures
        key_fingerprint(without_underscores("shared_secret"@)) == (12nat, 's', 'a', 't', 'e'),
{
    reveal_strlit("shared_secret");
    reveal_with_fuel(without_underscores, 14);
}

proof fn lemma_key_fingerprint_call_id()
    ensures
        key_fingerprint(without_underscores("call_id"@)) == (6nat, 'c', 'l', 'd', 'i'),
{
    reveal_strlit("call_id");
    reveal_with_fuel(without_underscores, 8);
}

proof fn lemma_key_fingerprint_call_token()
    ensures
        key_fingerprint(without_underscores("call_token"@)) == (9nat, 'c', 'l', 'n', 'e'),
{
    reveal_strlit("call_token");
    reveal_with_fuel(without_underscores, 11);
}

proof fn lemma_key_fingerprint_untill()
    ensures
        key_fingerprint(without_underscores("untill"@)) == (6nat, 'u', 't', 'l', 'l'),
{
    reveal_strlit("untill");
    reveal_with_fuel(without_underscores, 7);
}

proof fn lemma_key_fingerprint_enabled()
    ensures
        key_fingerprint(without_underscores("enabled"@)) == (7nat, 'e', 'a', 'd', 'e'),
{
    reveal_strlit("enabled");
    reveal_with_fuel(without_underscores, 8);
}

proof fn lemma_key_fingerprint_start_date()
    ensures
        key_fingerprint(without_underscores("start_date"@)) == (9nat, 's', 'a', 'e', 't'),
{
    reveal_strlit("start_date");
    reveal_with_fuel(without_underscores, 11);
}

proof fn lemma_key_fingerprint_end_date()
    ensures
        key_fingerprint(without_underscores("end_date"@)) == (7nat, 'e', 'd', 'e', 't'),
{
    reveal_strlit("end_date");
    reveal_with_fuel(without_underscores, 9);
}

proof fn lemma_key_fingerprint_receiver_id()
    ensures
        key_fingerprint(without_underscores("receiver_id"@)) == (10nat, 'r', 'c', 'd', 'i'),
{
    reveal_strlit("receiver_id");
    reveal_with_fuel(without_underscores, 12);
}

proof fn lemma_key_fingerprint_sender_id()
    ensures
        key_fingerprint(without_underscores("sender_id"@)) == (8nat, 's', 'n', 'd', 'i'),
{
    reveal_strlit("sender_id");
    reveal_with_fuel(without_underscores, 10);
}

proof fn lemma_key_fingerprint_signature()
    ensures
        key_fingerprint(without_underscores("signature"@)) == (9nat, 's', 'g', 'e', 'r'),
{
    reveal_strlit("signature");
    reveal_with_fuel(without_underscores, 10);
}

proof fn lemma_key_fingerprint_signed()
    ensures
        key_fingerprint(without_underscores("signed"@)) == (6nat, 's', 'g', 'd', 'e'),
{
    reveal_strlit("signed");
    reveal_with_fuel(without_underscores, 7);
}

proof fn lemma_key_fingerprint_message()
    ensures
        key_fingerprint(without_underscores("message"@)) == (7nat, 'm', 's', 'e', 'g'),
{
    reveal_strlit("message");
    reveal_with_fuel(without_underscores, 8);
}

proof fn lemma_key_fingerprint_message_state()
    ensures
        key_fingerprint(without_underscores("message_state"@)) == (12nat, 'm', 's', 'e', 't'),
{
    reveal_strlit("message_state");
    reveal_with_fuel(without_underscores, 14);
}

proof fn lemma_key_fingerprint_last_ping()
    ensures
        key_fingerprint(without_underscores("last_ping"@)) == (8nat, 'l', 's', 'g', 'n'),
{
    reveal_strlit("last_ping");
    reveal_with_fuel(without_underscores, 10);
}

proof fn lemma_key_fingerprint_ping_iota()
    ensures
        key_fingerprint(without_underscores("ping_iota"@)) == (8nat, 'p', 'n', 'a', 't'),
{
    reveal_strlit("ping_iota");
    reveal_with_fuel(without_underscores, 10);
}

proof fn lemma_key_fingerprint_ping_clients()
    ensures
        key_fingerprint(without_underscores("ping_clients"@)) == (11nat, 'p', 'n', 's', 't'),
{
    reveal_strlit("ping_clients");
    reveal_with_fuel(without_underscores, 13);
}

proof fn lemma_key_fingerprint_matches()
    ensures
        key_fingerprint(without_underscores("matches"@)) == (7nat, 'm', 't', 's', 'e'),
{
    reveal_strlit("matches");
    reveal_with_fuel(without_underscores, 8);
}

proof fn lemma_key_fingerprint_omikron()
    ensures
        key_fingerprint(without_underscores("omikron"@)) == (7nat, 'o', 'i', 'n', 'o'),
{
    reveal_strlit("omikron");
    reveal_with_fuel(without_underscores, 8);
}

proof fn lemma_key_fingerprint_offset()
    ensures
        key_fingerprint(without_underscores("offset"@)) == (6nat, 'o', 'f', 't', 'e'),
{
    reveal_strlit("offset");
    reveal_with_fuel(without_underscores, 7);
}

proof fn lemma_key_fingerprint_amount()
    ensures
        key_fingerprint(without_underscores("amount"@)) == (6nat, 'a', 'o', 't', 'n'),
{
    reveal_strlit("amount");
    reveal_with_fuel(without_underscores, 7);
}

proof fn lemma_key_fingerprint_position()
    ensures
        key_fingerprint(without_underscores("position"@)) == (8nat, 'p', 's', 'n', 'o'),
{
    reveal_strlit("position");
    reveal_with_fuel(without_underscores, 9);
}

proof fn lemma_key_fingerprint_name()
    ensures
        key_fingerprint(without_underscores("name"@)) == (4nat, 'n', 'm', 'e', 'm'),
{
    reveal_strlit("name");
    reveal_with_fuel(without_underscores, 5);
}

proof fn lemma_key_fingerprint_path()
    ensures
        key_fingerprint(without_underscores("path"@)) == (4nat, 'p', 't', 'h', 't'),
{
    reveal_strlit("path");
    reveal_with_fuel(without_underscores, 5);
}

proof fn lemma_key_fingerprint_codec()
    ensures
        key_fingerprint(without_underscores("codec"@)) == (5nat, 'c', 'd', 'c', 'e'),
{
    reveal_strlit("codec");
    reveal_with_fuel(without_underscores, 6);
}

proof fn lemma_key_fingerprint_function()
    ensures
        key_fingerprint(without_underscores("function"@)) == (8nat, 'f', 'n', 'n', 'o'),
{
    reveal_strlit("function");
    reveal_with_fuel(without_underscores, 9);
}

proof fn lemma_key_fingerprint_payload()
    ensures
        key_fingerprint(without_underscores("payload"@)) == (7nat, 'p', 'y', 'd', 'a'),
{
    reveal_strlit("payload");
    reveal_with_fuel(without_underscores, 8);
}

proof fn lemma_key_fingerprint_result()
    ensures
        key_fingerprint(without_underscores("result"@)) == (6nat, 'r', 's', 't', 'l'),
{
    reveal_strlit("result");
    reveal_with_fuel(without_underscores, 7);
}

proof fn lemma_key_fingerprint_interactables()
    ensures
        key_fingerprint(without_underscores("interactables"@)) == (13nat, 'i', 't', 's', 'e'),
{
    reveal_strlit("interactables");
    reveal_with_fuel(without_underscores, 14);
}

proof fn lemma_key_fingerprint_want_to_watch()
    ensures
        key_fingerprint(without_underscores("want_to_watch"@)) == (11nat, 'w', 'n', 'h', 'c'),
{
    reveal_strlit("want_to_watch");
    reveal_with_fuel(without_underscores, 14);
}

proof fn lemma_key_fingerprint_watcher()
    ensures
        key_fingerprint(without_underscores("watcher"@)) == (7nat, 'w', 't', 'r', 'e'),
{
    reveal_strlit("watcher");
    reveal_with_fuel(without_underscores, 8);
}

proof fn lemma_key_fingerprint_created_at()
    ensures
        key_fingerprint(without_underscores("created_at"@)) == (9nat, 'c', 'e', 't', 'a'),
{
    reveal_strlit("created_at");
    reveal_with_fuel(without_underscores, 11);
}

proof fn lemma_key_fingerprint_username()
    ensures
        key_fingerprint(without_underscores("username"@)) == (8nat, 'u', 'e', 'e', 'm'),
{
    reveal_strlit("username");
    reveal_with_fuel(without_underscores, 9);
}

proof fn lemma_key_fingerprint_display()
    ensures
        key_fingerprint(without_underscores("display"@)) == (7nat, 'd', 's', 'y', 'a'),
{
    reveal_strlit("display");
    reveal_with_fuel(without_underscores, 8);
}

proof fn lemma_key_fingerprint_avatar()
    ensures
        key_fingerprint(without_underscores("avatar"@)) == (6nat, 'a', 'a', 'r', 'a'),
{
    reveal_strlit("avatar");
    reveal_with_fuel(without_underscores, 7);
}

proof fn lemma_key_fingerprint_about()
    ensures
        key_fingerprint(without_underscores("about"@)) == (5nat, 'a', 'o', 't', 'u'),
{
    reveal_strlit("about");
    reveal_with_fuel(without_underscores, 6);
}

proof fn lemma_key_fingerprint_status()
    ensures
        key_fingerprint(without_underscores("status"@)) == (6nat, 's', 'a', 's', 'u'),
{
    reveal_strlit("status");
    reveal_with_fuel(without_underscores, 7);
}

proof fn lemma_key_fingerprint_public_key()
    ensures
        key_fingerprint(without_underscores("public_key"@)) == (9nat, 'p', 'b', 'y', 'e'),
{
    reveal_strlit("public_key");
    reveal_with_fuel(without_underscores, 11);
}

proof fn lemma_key_fingerprint_sub_level()
    ensures
        key_fingerprint(without_underscores("sub_level"@)) == (8nat, 's', 'b', 'l', 'e'),
{
    reveal_strlit("sub_level");
    reveal_with_fuel(without_underscores, 10);
}

proof fn lemma_key_fingerprint_sub_end()
    ensures
        key_fingerprint(without_underscores("sub_end"@)) == (6nat, 's', 'b', 'd', 'n'),
{
    reveal_strlit("sub_end");
    reveal_with_fuel(without_underscores, 8);
}

proof fn lemma_key_fingerprint_community_address()
    ensures
        key_fingerprint(without_underscores("community_address"@)) == (16nat, 'c', 'm', 's', 's'),
{
    reveal_strlit("community_address");
    reveal_with_fuel(without_underscores, 18);
}

proof fn lemma_key_fingerprint_challenge()
    ensures
        key_fingerprint(without_underscores("challenge"@)) == (9nat, 'c', 'a', 'e', 'g'),
{
    reveal_strlit("challenge");
    reveal_with_fuel(without_underscores, 10);
}

proof fn lemma_key_fingerprint_community_title()
    ensures
        key_fingerprint(without_underscores("community_title"@)) == (14nat, 'c', 'm', 'e', 'l'),
{
    reveal_strlit("community_title");
    reveal_with_fuel(without_underscores, 16);
}

proof fn lemma_key_fingerprint_communities()
    ensures
        key_fingerprint(without_underscores("communities"@)) == (11nat, 'c', 'm', 's', 'e'),
{
    reveal_strlit("communities");
    reveal_with_fuel(without_underscores, 12);
}

proof fn lemma_key_fingerprint_rho_connections()
    ensures
        key_fingerprint(without_underscores("rho_connections"@)) == (14nat, 'r', 'o', 's', 'n'),
{
    reveal_strlit("rho_connections");
    reveal_with_fuel(without_underscores, 16);
}

proof fn lemma_key_fingerprint_user()
    ensures
        key_fingerprint(without_underscores("user"@)) == (4nat, 'u', 'e', 'r', 'e'),
{
    reveal_strlit("user");
    reveal_with_fuel(without_underscores, 5);
}

proof fn lemma_key_fingerprint_online_status()
    ensures
        key_fingerprint(without_underscores("online_status"@)) == (12nat, 'o', 'l', 's', 'u'),
{
    reveal_strlit("online_status");
    reveal_with_fuel(without_underscores, 14);
}

proof fn lemma_key_fingerprint_omikron_id()
    ensures
        key_fingerprint(without_underscores("omikron_id"@)) == (9nat, 'o', 'i', 'd', 'i'),
{
    reveal_strlit("omikron_id");
    reveal_with_fuel(without_underscores, 11);
}

proof fn lemma_key_fingerprint_omikron_connections()
    ensures
        key_fingerprint(without_underscores("omikron_connections"@)) == (18nat, 'o', 'i', 's', 'n'),
{
    reveal_strlit("omikron_connections");
    reveal_with_fuel(without_underscores, 20);
}

proof fn lemma_key_fingerprint_reset_token()
    ensures
        key_fingerprint(without_underscores("reset_token"@)) == (10nat, 'r', 's', 'n', 'e'),
{
    reveal_strlit("reset_token");
    reveal_with_fuel(without_underscores, 12);
}

proof fn lemma_key_fingerprint_new_token()
    ensures
        key_fingerprint(without_underscores("new_token"@)) == (8nat, 'n', 'w', 'n', 'e'),
{
    reveal_strlit("new_token");
    reveal_with_fuel(without_underscores, 10);
}

proof fn lemma_key_fingerprint_call_invited()
    ensures
        key_fingerprint(without_underscores("call_invited"@)) == (11nat, 'c', 'l', 'd', 'e'),
{
    reveal_strlit("call_invited");
    reveal_with_fuel(without_underscores, 13);
}

proof fn lemma_key_fingerprint_call_members()
    ensures
        key_fingerprint(without_underscores("call_members"@)) == (11nat, 'c', 'l', 's', 'r'),
{
    reveal_strlit("call_members");
    reveal_with_fuel(without_underscores, 13);
}

proof fn lemma_key_fingerprint_calls()
    ensures
        key_fingerprint(without_underscores("calls"@)) == (5nat, 'c', 'l', 's', 'l'),
{
    reveal_strlit("calls");
    reveal_with_fuel(without_underscores, 6);
}

proof fn lemma_key_fingerprint_timeout()
    ensures
        key_fingerprint(without_underscores("timeout"@)) == (7nat, 't', 'm', 't', 'u'),
{
    reveal_strlit("timeout");
    reveal_with_fuel(without_underscores, 8);
}

proof fn lemma_key_fingerprint_has_admin()
    ensures
        key_fingerprint(without_underscores("has_admin"@)) == (8nat, 'h', 's', 'n', 'i'),
{
    reveal_strlit("has_admin");
    reveal_with_fuel(without_underscores, 10);
}

/// The fingerprint of each lookup key is the one in the table.
proof fn lemma_key_fingerprint(t: DataTypes)
    ensures
        key_fingerprint(without_underscores(t.name())) == fingerprint_of(t),
{
    match t {
        DataTypes::error_type => lemma_key_fingerprint_error_type(),
        DataTypes::error_protocol => lemma_key_fingerprint_error_protocol(),
        DataTypes::accepted_ids => lemma_key_fingerprint_accepted_ids(),
        DataTypes::uuid => lemma_key_fingerprint_uuid(),
        DataTypes::register_id => lemma_key_fingerprint_register_id(),
        DataTypes::link => lemma_key_fingerprint_link(),
        DataTypes::settings => lemma_key_fingerprint_settings(),
        DataTypes::settings_name => lemma_key_fingerprint_settings_name(),
        DataTypes::chat_partner_id => lemma_key_fingerprint_chat_partner_id(),
        DataTypes::chat_partner_name => lemma_key_fingerprint_chat_partner_name(),
        DataTypes::iota_id => lemma_key_fingerprint_iota_id(),
        DataTypes::user_id => lemma_key_fingerprint_user_id(),
        DataTypes::user_ids => lemma_key_fingerprint_user_ids(),
        DataTypes::iota_ids => lemma_key_fingerprint_iota_ids(),
        DataTypes::user_state => lemma_key_fingerprint_user_state(),
        DataTypes::user_states => lemma_key_fingerprint_user_states(),
        DataTypes::user_pings => lemma_key_fingerprint_user_pings(),
        DataTypes::call_state => lemma_key_fingerprint_call_state(),
        DataTypes::screen_share => lemma_key_fingerprint_screen_share(),
        DataTypes::private_key_hash => lemma_key_fingerprint_private_key_hash(),
        DataTypes::accepted => lemma_key_fingerprint_accepted(),
        DataTypes::accepted_profiles => lemma_key_fingerprint_accepted_profiles(),
        DataTypes::denied_profiles => lemma_key_fingerprint_denied_profiles(),
        DataTypes::content => lemma_key_fingerprint_content(),
        DataTypes::messages => lemma_key_fingerprint_messages(),
        DataTypes::notifications => lemma_key_fingerprint_notifications(),
        DataTypes::send_time => lemma_key_fingerprint_send_time(),
        DataTypes::get_time => lemma_key_fingerprint_get_time(),
        DataTypes::get_variant => lemma_key_fingerprint_get_variant(),
        DataTypes::shared_secret_own => lemma_key_fingerprint_shared_secret_own(),
        DataTypes::shared_secret_other => lemma_key_fingerprint_shared_secret_other(),
        DataTypes::shared_secret_sign => lemma_key_fingerprint_shared_secret_sign(),
        DataTypes::shared_secret => lemma_key_fingerprint_shared_secret(),
        DataTypes::call_id => lemma_key_fingerprint_call_id(),
        DataTypes::call_token => lemma_key_fingerprint_call_token(),
        DataTypes::untill => lemma_key_fingerprint_untill(),
        DataTypes::enabled => lemma_key_fingerprint_enabled(),
        DataTypes::start_date => lemma_key_fingerprint_start_date(),
        DataTypes::end_date => lemma_key_fingerprint_end_date(),
        DataTypes::receiver_id => lemma_key_fingerprint_receiver_id(),
        DataTypes::sender_id => lemma_key_fingerprint_sender_id(),
        DataTypes::signature => lemma_key_fingerprint_signature(),
        DataTypes::signed => lemma_key_fingerprint_signed(),
        DataTypes::message => lemma_key_fingerprint_message(),
        DataTypes::message_state => lemma_key_fingerprint_message_state(),
        DataTypes::last_ping => lemma_key_fingerprint_last_ping(),
        DataTypes::ping_iota => lemma_key_fingerprint_ping_iota(),
        DataTypes::ping_clients => lemma_key_fingerprint_ping_clients(),
        DataTypes::matches => lemma_key_fingerprint_matches(),
        DataTypes::omikron => lemma_key_fingerprint_omikron(),
        DataTypes::offset => lemma_key_fingerprint_offset(),
        DataTypes::amount => lemma_key_fingerprint_amount(),
        DataTypes::position => lemma_key_fingerprint_position(),
        DataTypes::name => lemma_key_fingerprint_name(),
        DataTypes::path => lemma_key_fingerprint_path(),
        DataTypes::codec => lemma_key_fingerprint_codec(),
        DataTypes::function => lemma_key_fingerprint_function(),
        DataTypes::payload => lemma_key_fingerprint_payload(),
        DataTypes::result => lemma_key_fingerprint_result(),
        DataTypes::interactables => lemma_key_fingerprint_interactables(),
        DataTypes::want_to_watch => lemma_key_fingerprint_want_to_watch(),
        DataTypes::watcher => lemma_key_fingerprint_watcher(),
        DataTypes::created_at => lemma_key_fingerprint_created_at(),
        DataTypes::username => lemma_key_fingerprint_username(),
        DataTypes::display => lemma_key_fingerprint_display(),
        DataTypes::avatar => lemma_key_fingerprint_avatar(),
        DataTypes::about => lemma_key_fingerprint_about(),
        DataTypes::status => lemma_key_fingerprint_status(),
        DataTypes::public_key => lemma_key_fingerprint_public_key(),
        DataTypes::sub_level => lemma_key_fingerprint_sub_level(),
        DataTypes::sub_end => lemma_key_fingerprint_sub_end(),
        DataTypes::community_address => lemma_key_fingerprint_community_address(),
        DataTypes::challenge => lemma_key_fingerprint_challenge(),
        DataTypes::community_title => lemma_key_fingerprint_community_title(),
        DataTypes::communities => lemma_key_fingerprint_communities(),
        DataTypes::rho_connections => lemma_key_fingerprint_rho_connections(),
        DataTypes::user => lemma_key_fingerprint_user(),
        DataTypes::online_status => lemma_key_fingerprint_online_status(),
        DataTypes::omikron_id => lemma_key_fingerprint_omikron_id(),
        DataTypes::omikron_connections => lemma_key_fingerprint_omikron_connections(),
        DataTypes::reset_token => lemma_key_fingerprint_reset_token(),
        DataTypes::new_token => lemma_key_fingerprint_new_token(),
        DataTypes::call_invited => lemma_key_fingerprint_call_invited(),
        DataTypes::call_members => lemma_key_fingerprint_call_members(),
        DataTypes::calls => lemma_key_fingerprint_calls(),
        DataTypes::timeout => lemma_key_fingerprint_timeout(),
        DataTypes::has_admin => lemma_key_fingerprint_has_admin(),
    }
}

/// An identifier's lookup key determines the identifier.
proof fn lemma_key_identifies(t: DataTypes)
    ensures
        fingerprint_owner(key_fingerprint(without_underscores(t.name()))) == t,
{
    lemma_key_fingerprint(t);
    lemma_fingerprint_owner(t);
}

/// Scanning from position `n` on, for the key of a name at or after `n`,
/// stops at that name.
proof fn lemma_first_match_finds(t: DataTypes, n: nat)
    requires
        n <= t.position(),
    ensures
        first_match_from(without_underscores(t.name()), n) == t,
    decreases t.position() - n,
{
    lemma_number_roundtrip(t);
    let u = DataTypes::numbered(n as u8);
    lemma_number_names_position(n as u8);
    if n < t.position() {
        lemma_key_identifies(t);
        lemma_key_identifies(u);
        lemma_first_match_finds(t, n + 1);
    }
}

/// Parsing a name gives back its identifier: the name of `t` is ASCII, and
/// the first identifier whose key is that of `t`'s name is `t`. So
/// `DataTypes::parse(t.to_string())` is `t`.
pub proof fn lemma_parse_finds_name(t: DataTypes)
    ensures
        all_ascii(t.name()),
        first_match_from(without_underscores(ascii_lowercase(t.name())), 0) == t,
{
    lemma_name_is_lowercase(t);
    lemma_first_match_finds(t, 0);
}

/// Parsing ignores the case of ASCII letters: two ASCII strings that are the
/// same once lowercased name the same identifier.
pub proof fn lemma_parse_ignores_case(a: Seq<char>, b: Seq<char>)
    requires
        all_ascii(a),
        all_ascii(b),
        ascii_lowercase(a) == ascii_lowercase(b),
    ensures
        first_match_from(without_underscores(ascii_lowercase(a)), 0) == first_match_from(
            without_underscores(ascii_lowercase(b)),
            0,
        ),
{
}

/// Parsing ignores underscores: putting `_` anywhere into an ASCII string
/// leaves the identifier it names unchanged.
pub proof fn lemma_parse_ignores_underscores(s: Seq<char>, i: int)
    requires
        all_ascii(s),
        0 <= i <= s.len(),
    ensures
        all_ascii(s.insert(i, '_')),
        first_match_from(without_underscores(ascii_lowercase(s.insert(i, '_'))), 0) == first_match_from(
            without_underscores(ascii_lowercase(s)),
            0,
        ),
{
    assert(ascii_lowercase(s.insert(i, '_')) =~= ascii_lowercase(s).insert(i, '_'));
    lemma_inserted_underscore_vanishes(ascii_lowercase(s), i);
}

/// An identifier's number is its discriminant, the index at which the
/// declaration lists it; the derived order and hash of identifiers go by the
/// same index.
pub proof fn lemma_number_is_discriminant(t: DataTypes)
    ensures
        t.position() == t as u8,
{
}

/// Whether `s` ends with `suffix`.
pub open spec fn ends_with(s: Seq<char>, suffix: Seq<char>) -> bool {
    s.len() >= suffix.len() && forall|i: int|
        0 <= i < suffix.len() ==> s[s.len() - suffix.len() + i] == #[trigger] suffix[i]
}

/// Whether `s` starts with `prefix`.
pub open spec fn starts_with(s: Seq<char>, prefix: Seq<char>) -> bool {
    s.len() >= prefix.len() && forall|i: int| 0 <= i < prefix.len() ==> s[i] == #[trigger] prefix[i]
}

/// The kind a field carries follows its name: an `_id` is a number and an
/// `_ids` a list of numbers, a `_date` is a number, a `_name`, `_token` or
/// `_state` is a string and a `_states` a list of strings, and every
/// `shared_secret` field is a string.
pub proof fn lemma_kind_follows_name(t: DataTypes)
    ensures
        ends_with(t.name(), seq!['_', 'i', 'd']) ==> t.kind_of() == DataKind::Number,
        ends_with(t.name(), seq!['_', 'i', 'd', 's']) ==> t.kind_of() == DataKind::Array(
            Box::new(DataKind::Number),
        ),
        ends_with(t.name(), seq!['_', 'd', 'a', 't', 'e']) ==> t.kind_of() == DataKind::Number,
        ends_with(t.name(), seq!['_', 'n', 'a', 'm', 'e']) ==> t.kind_of() == DataKind::Str,
        ends_with(t.name(), seq!['_', 't', 'o', 'k', 'e', 'n']) ==> t.kind_of() == DataKind::Str,
        ends_with(t.name(), seq!['_', 's', 't', 'a', 't', 'e']) ==> t.kind_of() == DataKind::Str,
        ends_with(t.name(), seq!['_', 's', 't', 'a', 't', 'e', 's']) ==> t.kind_of() == DataKind::Array(
            Box::new(DataKind::Str),
        ),
        starts_with(t.name(), seq!['s', 'h', 'a', 'r', 'e', 'd', '_', 's', 'e', 'c', 'r', 'e', 't'])
            ==> t.kind_of() == DataKind::Str,
{
    match t {
        DataTypes::error_type => {
            reveal_strlit("error_type");
        },
        DataTypes::error_protocol => {
            reveal_strlit("error_protocol");
        },
        DataTypes::accepted_ids => {
            reveal_strlit("accepted_ids");
        },
        DataTypes::uuid => {
            reveal_strlit("uuid");
        },
        DataTypes::register_id => {
            reveal_strlit("register_id");
        },
        DataTypes::link => {
            reveal_strlit("link");
        },
        DataTypes::settings => {
            reveal_strlit("settings");
        },
        DataTypes::settings_name => {
            reveal_strlit("settings_name");
        },
        DataTypes::chat_partner_id => {
            reveal_strlit("chat_partner_id");
        },
        DataTypes::chat_partner_name => {
            reveal_strlit("chat_partner_name");
        },
        DataTypes::iota_id => {
            reveal_strlit("iota_id");
        },
        DataTypes::user_id => {
            reveal_strlit("user_id");
        },
        DataTypes::user_ids => {
            reveal_strlit("user_ids");
        },
        DataTypes::iota_ids => {
            reveal_strlit("iota_ids");
        },
        DataTypes::user_state => {
            reveal_strlit("user_state");
        },
        DataTypes::user_states => {
            reveal_strlit("user_states");
        },
        DataTypes::user_pings => {
            reveal_strlit("user_pings");
        },
        DataTypes::call_state => {
            reveal_strlit("call_state");
        },
        DataTypes::screen_share => {
            reveal_strlit("screen_share");
        },
        DataTypes::private_key_hash => {
            reveal_strlit("private_key_hash");
        },
        DataTypes::accepted => {
            reveal_strlit("accepted");
        },
        DataTypes::accepted_profiles => {
            reveal_strlit("accepted_profiles");
        },
        DataTypes::denied_profiles => {
            reveal_strlit("denied_profiles");
        },
        DataTypes::content => {
            reveal_strlit("content");
        },
        DataTypes::messages => {
            reveal_strlit("messages");
        },
        DataTypes::notifications => {
            reveal_strlit("notifications");
        },
        DataTypes::send_time => {
            reveal_strlit("send_time");
        },
        DataTypes::get_time => {
            reveal_strlit("get_time");
        },
        DataTypes::get_variant => {
            reveal_strlit("get_variant");
        },
        DataTypes::shared_secret_own => {
            reveal_strlit("shared_secret_own");
        },
        DataTypes::shared_secret_other => {
            reveal_strlit("shared_secret_other");
        },
        DataTypes::shared_secret_sign => {
            reveal_strlit("shared_secret_sign");
        },
        DataTypes::shared_secret => {
            reveal_strlit("shared_secret");
        },
        DataTypes::call_id => {
            reveal_strlit("call_id");
        },
        DataTypes::call_token => {
            reveal_strlit("call_token");
        },
        DataTypes::untill => {
            reveal_strlit("untill");
        },
        DataTypes::enabled => {
            reveal_strlit("enabled");
        },
        DataTypes::start_date => {
            reveal_strlit("start_date");
        },
        DataTypes::end_date => {
            reveal_strlit("end_date");
        },
        DataTypes::receiver_id => {
            reveal_strlit("receiver_id");
        },
        DataTypes::sender_id => {
            reveal_strlit("sender_id");
        },
        DataTypes::signature => {
            reveal_strlit("signature");
        },
        DataTypes::signed => {
            reveal_strlit("signed");
        },
        DataTypes::message => {
            reveal_strlit("message");
        },
        DataTypes::message_state => {
            reveal_strlit("message_state");
        },
        DataTypes::last_ping => {
            reveal_strlit("last_ping");
        },
        DataTypes::ping_iota => {
            reveal_strlit("ping_iota");
        },
        DataTypes::ping_clients => {
            reveal_strlit("ping_clients");
        },
        DataTypes::matches => {
            reveal_strlit("matches");
        },
        DataTypes::omikron => {
            reveal_strlit("omikron");
        },
        DataTypes::offset => {
            reveal_strlit("offset");
        },
        DataTypes::amount => {
            reveal_strlit("amount");
        },
        DataTypes::position => {
            reveal_strlit("position");
        },
        DataTypes::name => {
            reveal_strlit("name");
        },
        DataTypes::path => {
            reveal_strlit("path");
        },
        DataTypes::codec => {
            reveal_strlit("codec");
        },
        DataTypes::function => {
            reveal_strlit("function");
        },
        DataTypes::payload => {
            reveal_strlit("payload");
        },
        DataTypes::result => {
            reveal_strlit("result");
        },
        DataTypes::interactables => {
            reveal_strlit("interactables");
        },
        DataTypes::want_to_watch => {
            reveal_strlit("want_to_watch");
        },
        DataTypes::watcher => {
            reveal_strlit("watcher");
        },
        DataTypes::created_at => {
            reveal_strlit("created_at");
        },
        DataTypes::username => {
            reveal_strlit("username");
        },
        DataTypes::display => {
            reveal_strlit("display");
        },
        DataTypes::avatar => {
            reveal_strlit("avatar");
        },
        DataTypes::about => {
            reveal_strlit("about");
        },
        DataTypes::status => {
            reveal_strlit("status");
        },
        DataTypes::public_key => {
            reveal_strlit("public_key");
        },
        DataTypes::sub_level => {
            reveal_strlit("sub_level");
        },
        DataTypes::sub_end => {
            reveal_strlit("sub_end");
        },
        DataTypes::community_address => {
            reveal_strlit("community_address");
        },
        DataTypes::challenge => {
            reveal_strlit("challenge");
        },
        DataTypes::community_title => {
            reveal_strlit("community_title");
        },
        DataTypes::communities => {
            reveal_strlit("communities");
        },
        DataTypes::rho_connections => {
            reveal_strlit("rho_connections");
        },
        DataTypes::user => {
            reveal_strlit("user");
        },
        DataTypes::online_status => {
            reveal_strlit("online_status");
        },
        DataTypes::omikron_id => {
            reveal_strlit("omikron_id");
        },
        DataTypes::omikron_connections => {
            reveal_strlit("omikron_connections");
        },
        DataTypes::reset_token => {
            reveal_strlit("reset_token");
        },
        DataTypes::new_token => {
            reveal_strlit("new_token");
        },
        DataTypes::call_invited => {
            reveal_strlit("call_invited");
        },
        DataTypes::call_members => {
            reveal_strlit("call_members");
        },
        DataTypes::calls => {
            reveal_strlit("calls");
        },
        DataTypes::timeout => {
            reveal_strlit("timeout");
        },
        DataTypes::has_admin => {
            reveal_strlit("has_admin");
        },
    }
}

/// An identifier's number leads back to it: `from_number(t.as_number())`
/// is `t`, and the number is below [`DATA_TYPE_COUNT`].
pub proof fn lemma_number_roundtrip(t: DataTypes)
    ensures
        t.position() < DATA_TYPE_COUNT,
        DataTypes::numbered(t.position() as u8) == t,
{
}

/// A number below [`DATA_TYPE_COUNT`] names the identifier at that
/// position: `from_number(n).as_number()` is `n`.
pub proof fn lemma_number_names_position(n: u8)
    requires
        n < DATA_TYPE_COUNT,
    ensures
        DataTypes::numbered(n).position() == n,
{
}

/// A number from [`DATA_TYPE_COUNT`] on names `error_protocol`.
pub proof fn lemma_number_out_of_range(n: u8)
    requires
        n >= DATA_TYPE_COUNT,
    ensures
        DataTypes::numbered(n) == DataTypes::error_protocol,
{
}

/// Distinct identifiers have distinct numbers.
pub proof fn lemma_numbers_distinct(a: DataTypes, b: DataTypes)
    requires
        a != b,
    ensures
        a.position() != b.position(),
{
    lemma_number_roundtrip(a);
    lemma_number_roundtrip(b);
}

} // verus!
