use librazer::error::Error;
use librazer::packet::{Packet, ARGS_LEN, FRAME_LEN, STATUS_FAILURE, STATUS_NEW, STATUS_SUCCESS};

fn xor_all(bytes: &[u8]) -> u8 {
    let mut acc = 0u8;
    for b in bytes {
        acc ^= *b;
    }
    acc
}

#[test]
fn encode_layout_is_exact() {
    let mut p = Packet::new(0x0d, 0x02);
    p.args[0] = 0x01;
    p.args[1] = 0x01;
    p.args[2] = 0x04;
    let bytes = p.encode();
    assert_eq!(bytes.len(), FRAME_LEN);
    assert_eq!(bytes[0], STATUS_NEW);
    assert_eq!(bytes[1], 0x0d);
    assert_eq!(bytes[2], 0x02);
    assert_eq!(bytes[3], 0x01);
    assert_eq!(bytes[4], 0x01);
    assert_eq!(bytes[5], 0x04);
    for i in 6..FRAME_LEN - 1 {
        assert_eq!(bytes[i], 0);
    }
    // the checksum byte XOR-folds all preceding bytes
    assert_eq!(bytes[FRAME_LEN - 1], xor_all(&bytes[..FRAME_LEN - 1]));
    // here that is 0x00 ^ 0x0d ^ 0x02 ^ 0x01 ^ 0x01 ^ 0x04
    assert_eq!(bytes[FRAME_LEN - 1], 0x0b);
}

#[test]
fn decode_encode_round_trip() {
    let mut p = Packet::new(0x07, 0x12);
    p.status = STATUS_SUCCESS;
    for i in 0..ARGS_LEN {
        p.args[i] = (i as u8).wrapping_mul(3);
    }
    let bytes = p.encode();
    let q = Packet::decode(&bytes).expect("round trip must decode");
    assert_eq!(q, p);
}

#[test]
fn encode_length_is_constant() {
    let empty = Packet::new(0x00, 0x00);
    let mut full = Packet::new(0xff, 0xff);
    full.status = 0xff;
    for i in 0..ARGS_LEN {
        full.args[i] = 0xff;
    }
    assert_eq!(empty.encode().len(), FRAME_LEN);
    assert_eq!(full.encode().len(), FRAME_LEN);
}

#[test]
fn decode_rejects_wrong_length() {
    let p = Packet::new(0x0d, 0x02);
    let mut bytes = p.encode();
    bytes.push(0);
    assert_eq!(Packet::decode(&bytes), Err(Error::FrameError));
    assert_eq!(Packet::decode(&bytes[..FRAME_LEN - 1]), Err(Error::FrameError));
    assert_eq!(Packet::decode(&[]), Err(Error::FrameError));
}

#[test]
fn decode_rejects_corrupt_checksum() {
    let p = Packet::new(0x0d, 0x02);
    let mut bytes = p.encode();
    bytes[10] ^= 0x20;
    assert_eq!(Packet::decode(&bytes), Err(Error::ChecksumMismatch));
}

#[test]
fn matches_ignores_argument_bytes() {
    let req = Packet::new(0x0d, 0x02);
    let mut resp = Packet::new(0x0d, 0x02);
    resp.status = STATUS_SUCCESS;
    resp.args[0] = 0xaa;
    resp.args[79] = 0x55;
    // identical class and id, differing arguments: must match
    assert!(resp.matches(&req));
}

#[test]
fn matches_requires_class_id_and_success() {
    let req = Packet::new(0x0d, 0x02);

    let mut wrong_class = Packet::new(0x0e, 0x02);
    wrong_class.status = STATUS_SUCCESS;
    assert!(!wrong_class.matches(&req));

    let mut wrong_id = Packet::new(0x0d, 0x03);
    wrong_id.status = STATUS_SUCCESS;
    assert!(!wrong_id.matches(&req));

    let mut failed = Packet::new(0x0d, 0x02);
    failed.status = STATUS_FAILURE;
    assert!(!failed.matches(&req));

    let not_answered = Packet::new(0x0d, 0x02);
    assert!(!not_answered.matches(&req));
}
