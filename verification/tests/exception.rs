use modbusgw::exception::{synthesize_exception, TARGET_FAILED_TO_RESPOND};

#[test]
fn the_exception_code_is_0x0b() {
    assert_eq!(TARGET_FAILED_TO_RESPOND, 0x0B);
}

#[test]
fn an_exception_for_a_read_request() {
    assert_eq!(
        synthesize_exception(0x01, 0x03, TARGET_FAILED_TO_RESPOND),
        vec![0x00, 0x03, 0x01, 0x83, 0x0B]
    );
}

#[test]
fn an_exception_carries_the_unit_and_the_code_it_is_given() {
    assert_eq!(synthesize_exception(0xF7, 0x10, 0x04), vec![0x00, 0x03, 0xF7, 0x90, 0x04]);
    assert_eq!(synthesize_exception(0x00, 0x00, 0x00), vec![0x00, 0x03, 0x00, 0x80, 0x00]);
}

#[test]
fn a_marked_function_code_stays_marked() {
    assert_eq!(synthesize_exception(1, 0x83, 0x0B), vec![0x00, 0x03, 0x01, 0x83, 0x0B]);
    assert_eq!(synthesize_exception(1, 0xFF, 0x0B), vec![0x00, 0x03, 0x01, 0xFF, 0x0B]);
}
