use modality_trace_recorder_plugin::auth::{AuthTokenBytes, AuthTokenError, HexError};

#[test]
fn token_from_hex() {
    let t = AuthTokenBytes::from_hex("  a1B2ff\n").unwrap();
    assert_eq!(t.0, vec![0xa1, 0xb2, 0xff]);
    assert_eq!(AuthTokenBytes::from_hex("abc").err(), Some(AuthTokenError::Hex(HexError::OddLength)));
    assert_eq!(
        AuthTokenBytes::from_hex("a1zz").err(),
        Some(AuthTokenError::Hex(HexError::InvalidHexCharacter { c: 'z', index: 2 }))
    );
}

#[test]
fn token_resolution_order() {
    assert_eq!(AuthTokenBytes::resolve(Some("00"), Some("ff".to_owned())).unwrap().0, vec![0]);
    assert_eq!(AuthTokenBytes::resolve(None, Some("ff\n".to_owned())).unwrap().0, vec![0xff]);
    assert_eq!(AuthTokenBytes::resolve(None, None).err(), Some(AuthTokenError::AuthRequired));
}
