use ace_dst::security::{SecurityError, TestSecurityProvider};

#[test]
fn seed_is_the_level_byte() {
    let mut p = TestSecurityProvider;
    let mut buf = [0xAAu8; 4];
    assert_eq!(p.generate_seed(0x01, &mut buf), Ok(1));
    assert_eq!(buf, [0x01, 0xAA, 0xAA, 0xAA]);
}

#[test]
fn seed_needs_room() {
    let mut p = TestSecurityProvider;
    let mut buf: [u8; 0] = [];
    assert_eq!(p.generate_seed(0x01, &mut buf), Err(SecurityError::InvalidKey));
}

#[test]
fn key_is_seed_xor_ff() {
    let p = TestSecurityProvider;
    assert_eq!(p.validate_key(0x01, &[0x01], &[0xFE]), Ok(()));
    assert_eq!(p.validate_key(0x05, &[0x01, 0x99], &[0xFE, 0x00]), Ok(()));
    assert_eq!(p.validate_key(0x01, &[0x01], &[0x00]), Err(SecurityError::InvalidKey));
    assert_eq!(p.validate_key(0x01, &[0x01], &[]), Err(SecurityError::InvalidKey));
}

#[test]
fn empty_seed_counts_as_zero() {
    let p = TestSecurityProvider;
    assert_eq!(p.validate_key(0x01, &[], &[0xFF]), Ok(()));
    assert_eq!(p.validate_key(0x01, &[], &[0xFE]), Err(SecurityError::InvalidKey));
}

#[test]
fn generated_seed_unlocks_every_level() {
    let mut p = TestSecurityProvider;
    for level in [0x01u8, 0x03, 0x11, 0x7F, 0xFF] {
        let mut buf = [0u8; 1];
        assert_eq!(p.generate_seed(level, &mut buf), Ok(1));
        assert_eq!(p.validate_key(level, &buf, &[buf[0] ^ 0xFF]), Ok(()));
        assert_eq!(p.validate_key(level, &buf, &[buf[0]]), Err(SecurityError::InvalidKey));
    }
}
