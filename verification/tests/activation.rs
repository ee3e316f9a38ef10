use ace_dst::activation::{DenyActivationAuthProvider, TestActivationAuthProvider};

#[test]
fn test_provider_allows_everyone() {
    let mut p = TestActivationAuthProvider;
    assert_eq!(p.authenticate(0x0E00, &[]), Ok(()));
    assert_eq!(p.authenticate(0x1234, &[1, 2, 3, 4]), Ok(()));
}

#[test]
fn deny_provider_reports_its_reason() {
    let mut p = DenyActivationAuthProvider { reason: 0x04 };
    assert_eq!(p.authenticate(0x0E00, &[]), Err(0x04));
    assert_eq!(p.authenticate(0x0E01, &[0xFF]), Err(0x04));
    assert_eq!(p.reason, 0x04);
}
