use modbusgw::checksum::{append_checksum, carries, compute_checksum, seal, verify};

#[test]
fn checksum_of_the_check_string() {
    assert_eq!(compute_checksum(b"123456789"), 0x4B37);
}

#[test]
fn checksum_of_nothing_is_the_initial_value() {
    assert_eq!(compute_checksum(&[]), 0xFFFF);
}

#[test]
fn checksum_is_appended_low_byte_first() {
    assert_eq!(append_checksum(&[0x01, 0x03], 0x1234), vec![0x01, 0x03, 0x34, 0x12]);
}

#[test]
fn sealing_a_read_request() {
    let frame = seal(&[0x01, 0x03, 0x00, 0x00, 0x00, 0x01]);
    assert_eq!(frame, vec![0x01, 0x03, 0x00, 0x00, 0x00, 0x01, 0x84, 0x0A]);
}

#[test]
fn sealed_frames_verify() {
    let payloads: [&[u8]; 4] = [&[], &[0x00], &[0x11, 0x05, 0x00, 0xAC, 0xFF, 0x00], b"123456789"];
    for payload in payloads {
        assert!(verify(&seal(payload)));
    }
}

#[test]
fn a_flipped_bit_is_noticed() {
    let mut frame = seal(&[0x01, 0x03, 0x02, 0x00, 0x2A]);
    frame[3] ^= 0x01;
    assert!(!verify(&frame));
}

#[test]
fn frames_shorter_than_a_checksum_do_not_verify() {
    assert!(!verify(&[]));
    assert!(!verify(&[0xFF]));
    assert!(verify(&[0xFF, 0xFF]));
}

#[test]
fn carries_compares_the_last_two_bytes() {
    assert!(carries(&[0x09, 0x34, 0x12], 0x1234));
    assert!(!carries(&[0x09, 0x12, 0x34], 0x1234));
    assert!(!carries(&[0x34], 0x0034));
}
