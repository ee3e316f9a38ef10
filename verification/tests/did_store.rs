use ace_dst::did_store::{default_test_handler, Nrc, TestHandler};

const VIN: &[u8] = b"TESTVIN1234567890";

#[test]
fn read_returns_stored_bytes() {
    let h = default_test_handler();
    let mut buf = [0u8; 64];
    assert_eq!(h.read_did(0xF190, &mut buf), Ok(17));
    assert_eq!(&buf[..17], VIN);
    assert_eq!(buf[17], 0);
    assert_eq!(h.read_did(0xF290, &mut buf), Ok(17));
    assert_eq!(&buf[..17], VIN);
    assert_eq!(h.read_did(0xF101, &mut buf), Ok(6));
    assert_eq!(&buf[..6], b"SN-001");
    assert_eq!(h.read_did(0xF120, &mut buf), Ok(2));
    assert_eq!(&buf[..2], &[0x01, 0x02]);
}

#[test]
fn read_is_cut_to_buffer() {
    let h = default_test_handler();
    let mut buf = [0xEEu8; 4];
    assert_eq!(h.read_did(0xF190, &mut buf), Ok(4));
    assert_eq!(&buf, b"TEST");
}

#[test]
fn read_unknown_did_is_out_of_range() {
    let h = default_test_handler();
    let mut buf = [0x11u8; 8];
    assert_eq!(h.read_did(0xDEAD, &mut buf), Err(Nrc::RequestOutOfRange));
    assert_eq!(buf, [0x11u8; 8]);
}

#[test]
fn write_then_read_round_trip() {
    let mut h = default_test_handler();
    assert_eq!(h.write_did(0xF120, &[0xAA, 0xBB]), Ok(()));
    let mut buf = [0u8; 8];
    assert_eq!(h.read_did(0xF120, &mut buf), Ok(2));
    assert_eq!(&buf[..2], &[0xAA, 0xBB]);
    assert_eq!(h.read_did(0xF190, &mut buf), Ok(8));
    assert_eq!(&buf, b"TESTVIN1");
}

#[test]
fn write_unknown_did_is_out_of_range() {
    let mut h = default_test_handler();
    assert_eq!(h.write_did(0xDEAD, &[1]), Err(Nrc::RequestOutOfRange));
    let mut buf = [0u8; 4];
    assert_eq!(h.read_did(0xDEAD, &mut buf), Err(Nrc::RequestOutOfRange));
}

#[test]
fn write_keeps_at_most_64_bytes() {
    let mut h = TestHandler::new();
    h.set_did(0x0001, &[0]);
    let data: Vec<u8> = (0..100u8).collect();
    assert_eq!(h.write_did(0x0001, &data), Ok(()));
    let mut buf = [0u8; 128];
    assert_eq!(h.read_did(0x0001, &mut buf), Ok(64));
    assert_eq!(&buf[..64], &data[..64]);
}

#[test]
fn set_did_replaces_and_adds() {
    let mut h = TestHandler::default();
    let mut buf = [0u8; 8];
    assert_eq!(h.read_did(0x0100, &mut buf), Err(Nrc::RequestOutOfRange));
    h.set_did(0x0100, &[1, 2, 3]);
    assert_eq!(h.read_did(0x0100, &mut buf), Ok(3));
    h.set_did(0x0100, &[9]);
    assert_eq!(h.read_did(0x0100, &mut buf), Ok(1));
    assert_eq!(buf[0], 9);
}

#[test]
fn set_did_holds_eight_identifiers() {
    let mut h = TestHandler::new();
    for id in 0..8u16 {
        h.set_did(id, &[id as u8]);
    }
    h.set_did(0x0100, &[0xFF]);
    let mut buf = [0u8; 1];
    assert_eq!(h.read_did(0x0100, &mut buf), Err(Nrc::RequestOutOfRange));
    for id in 0..8u16 {
        assert_eq!(h.read_did(id, &mut buf), Ok(1));
        assert_eq!(buf[0], id as u8);
    }
    // An identifier already stored can still be replaced when the store is full.
    h.set_did(3, &[0x33, 0x34]);
    let mut two = [0u8; 2];
    assert_eq!(h.read_did(3, &mut two), Ok(2));
    assert_eq!(two, [0x33, 0x34]);
}

#[test]
fn ecu_reset_accepts_everything() {
    let mut h = default_test_handler();
    assert_eq!(h.ecu_reset(0x01), Ok(()));
    assert_eq!(h.ecu_reset(0x7F), Ok(()));
    let mut buf = [0u8; 32];
    assert_eq!(h.read_did(0xF190, &mut buf), Ok(17));
}
