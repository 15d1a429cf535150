use pulse_server::tokens::{hex_encode, TokenRegistry, SESSION_TOKEN_BYTES};

#[test]
fn new_registry_accepts_nothing() {
    let registry = TokenRegistry::new();
    assert!(registry.get_valid_tokens().is_empty());
    assert!(!registry.validate_token(""));
    assert!(!registry.validate_token("anything"));
}

#[test]
fn session_token_is_made_once_and_accepted() {
    let mut registry = TokenRegistry::new();
    let token = registry.get_session_token();

    assert_eq!(SESSION_TOKEN_BYTES, 32);
    assert_eq!(token.len(), 64);
    assert!(token.chars().all(|c| c.is_ascii_digit() || ('a'..='f').contains(&c)));
    assert_ne!(token, "0".repeat(64));
    assert!(registry.validate_token(&token));
    assert_eq!(registry.get_session_token(), token);
    assert_eq!(registry.get_session_token(), token);
    assert_eq!(registry.get_valid_tokens(), &vec![token]);
}

#[test]
fn two_instances_make_different_tokens() {
    let first = TokenRegistry::new().get_session_token();
    let second = TokenRegistry::new().get_session_token();
    assert_ne!(first, second);
}

#[test]
fn session_token_from_bytes_is_their_hex() {
    let mut registry = TokenRegistry::new();
    let token = registry.session_token_from(&vec![0x00, 0x0f, 0xa0, 0xff]);
    assert_eq!(token, "000fa0ff");
    assert!(registry.validate_token("000fa0ff"));
    assert!(!registry.validate_token("000FA0FF"));

    assert_eq!(registry.session_token_from(&vec![0x12]), "000fa0ff");
    assert!(!registry.validate_token("12"));
    assert_eq!(registry.get_session_token(), "000fa0ff");
}

#[test]
fn trusted_tokens_are_accepted_once_added() {
    let mut registry = TokenRegistry::new();
    registry.add_trusted_token("peer-one");
    registry.add_trusted_token("peer-two");
    registry.add_trusted_token("peer-one");

    assert!(registry.validate_token("peer-one"));
    assert!(registry.validate_token("peer-two"));
    assert!(!registry.validate_token("peer-three"));
    assert!(!registry.validate_token("peer-on"));
    assert!(!registry.validate_token("peer-one "));
    assert_eq!(registry.get_valid_tokens(), &vec!["peer-one".to_string(), "peer-two".to_string()]);

    let token = registry.get_session_token();
    assert!(registry.validate_token(&token));
    assert!(registry.validate_token("peer-one"));
    assert_eq!(registry.get_valid_tokens().len(), 3);
}

#[test]
fn hex_encode_writes_two_digits_a_byte() {
    assert_eq!(hex_encode(&vec![]), "");
    assert_eq!(hex_encode(&vec![0]), "00");
    assert_eq!(hex_encode(&vec![0x09, 0x0a, 0x10, 0x9f, 0xf9]), "090a109ff9");
    let all: Vec<u8> = (0..=255).collect();
    let expected: String = all.iter().map(|b| format!("{:02x}", b)).collect();
    assert_eq!(hex_encode(&all), expected);
}
