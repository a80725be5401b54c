use modbusgw::checksum::seal;
use modbusgw::exchange::{accept, diagnose, diagnose_with, render, respond, BusFault, Request};
use modbusgw::header::{FrameError, TcpHeader};

const READ_ONE_REGISTER: [u8; 12] =
    [0x00, 0x01, 0x00, 0x00, 0x00, 0x06, 0x01, 0x03, 0x00, 0x00, 0x00, 0x01];

fn read_request() -> Request {
    Request {
        header: TcpHeader { transaction_id: 1, protocol_id: 0, length: 6, unit_id: 1 },
        function_code: 3,
    }
}

#[test]
fn a_read_request_becomes_a_sealed_frame() {
    let (request, task) = accept(&READ_ONE_REGISTER).unwrap();
    assert_eq!(request, read_request());
    assert_eq!(task.frame(), &[0x01, 0x03, 0x00, 0x00, 0x00, 0x01, 0x84, 0x0A]);
    assert!(!task.is_broadcast());
}

#[test]
fn a_valid_reply_is_forwarded_without_its_checksum() {
    let (request, _) = accept(&READ_ONE_REGISTER).unwrap();
    let reply = seal(&[0x01, 0x03, 0x02, 0x00, 0x2A]);
    assert_eq!(
        respond(&request, &reply),
        vec![0x00, 0x01, 0x00, 0x00, 0x00, 0x05, 0x01, 0x03, 0x02, 0x00, 0x2A]
    );
}

#[test]
fn a_silent_bus_gives_an_exception() {
    let (request, _) = accept(&READ_ONE_REGISTER).unwrap();
    assert_eq!(
        respond(&request, &[]),
        vec![0x00, 0x01, 0x00, 0x00, 0x00, 0x03, 0x01, 0x83, 0x0B]
    );
}

#[test]
fn a_foreign_protocol_is_refused() {
    let mut bytes = READ_ONE_REGISTER;
    bytes[3] = 0x01;
    assert_eq!(accept(&bytes), Err(FrameError::UnsupportedProtocol));
}

#[test]
fn short_reads_are_refused() {
    assert_eq!(accept(&[]), Err(FrameError::MalformedHeader));
    assert_eq!(accept(&READ_ONE_REGISTER[..5]), Err(FrameError::MalformedHeader));
    assert_eq!(accept(&READ_ONE_REGISTER[..6]), Err(FrameError::MalformedHeader));
}

#[test]
fn lengths_out_of_range_are_refused() {
    let mut bytes = READ_ONE_REGISTER;
    bytes[5] = 5;
    assert_eq!(accept(&bytes), Err(FrameError::InvalidLength));
    bytes[5] = 251;
    assert_eq!(accept(&bytes), Err(FrameError::InvalidLength));
    bytes[5] = 250;
    assert!(accept(&bytes).is_ok());
}

#[test]
fn bytes_after_the_announced_end_are_not_forwarded() {
    let mut bytes = READ_ONE_REGISTER.to_vec();
    bytes.extend_from_slice(&[0xAA, 0xBB]);
    let (request, task) = accept(&bytes).unwrap();
    assert_eq!(request, read_request());
    assert_eq!(task.frame(), &[0x01, 0x03, 0x00, 0x00, 0x00, 0x01, 0x84, 0x0A]);
    assert_eq!(task.frame().len(), 8);
}

#[test]
fn one_more_byte_than_announced_is_left_out() {
    let mut bytes = READ_ONE_REGISTER.to_vec();
    bytes.push(0x7E);
    assert_eq!(bytes.len(), 13);
    let (_, task) = accept(&bytes).unwrap();
    assert_eq!(task.frame(), seal(&READ_ONE_REGISTER[6..]).as_slice());
}

#[test]
fn of_two_requests_in_one_read_the_first_is_forwarded() {
    let mut bytes = READ_ONE_REGISTER.to_vec();
    bytes.extend_from_slice(&[0x00, 0x02, 0x00, 0x00, 0x00, 0x06, 0x02, 0x04, 0, 8, 0, 1]);
    let both = accept(&bytes).unwrap();
    let first = accept(&READ_ONE_REGISTER).unwrap();
    assert_eq!(both, first);
}

#[test]
fn the_length_field_decides_how_much_is_forwarded() {
    let mut bytes = vec![0x00, 0x01, 0x00, 0x00, 0x00, 0x09, 0x11, 0x10];
    bytes.extend_from_slice(&[0x00, 0x01, 0x00, 0x01, 0x02, 0x00, 0x0A]);
    bytes.extend_from_slice(&[0xEE; 5]);
    let (_, task) = accept(&bytes).unwrap();
    assert_eq!(
        task.frame(),
        seal(&[0x11, 0x10, 0x00, 0x01, 0x00, 0x01, 0x02, 0x00, 0x0A]).as_slice()
    );
    assert_eq!(task.frame().len(), 9 + 2);
}

#[test]
fn a_request_that_breaks_off_is_forwarded_as_far_as_it_was_read() {
    let (request, task) = accept(&READ_ONE_REGISTER[..10]).unwrap();
    assert_eq!(request.function_code, 3);
    assert_eq!(task.frame(), seal(&[0x01, 0x03, 0x00, 0x00]).as_slice());
    let mut bytes = READ_ONE_REGISTER;
    bytes[5] = 250;
    let (_, task) = accept(&bytes).unwrap();
    assert_eq!(task.frame(), seal(&READ_ONE_REGISTER[6..]).as_slice());
}

#[test]
fn a_request_that_ends_with_its_unit_id_has_function_zero() {
    let (request, task) = accept(&READ_ONE_REGISTER[..7]).unwrap();
    assert_eq!(request.function_code, 0);
    assert_eq!(task.frame(), seal(&[0x01]).as_slice());
}

#[test]
fn requests_to_0_and_255_are_broadcasts() {
    for unit in [0u8, 255] {
        let mut bytes = READ_ONE_REGISTER;
        bytes[6] = unit;
        let (request, task) = accept(&bytes).unwrap();
        assert!(request.is_broadcast());
        assert!(task.is_broadcast());
    }
    let (request, task) = accept(&READ_ONE_REGISTER).unwrap();
    assert!(!request.is_broadcast());
    assert!(!task.is_broadcast());
}

#[test]
fn a_broadcast_is_answered_with_nothing() {
    let mut bytes = READ_ONE_REGISTER;
    bytes[6] = 0;
    let (request, _) = accept(&bytes).unwrap();
    assert_eq!(respond(&request, &[]), Vec::<u8>::new());
    assert_eq!(respond(&request, &seal(&[0x00, 0x03, 0x02, 0x00, 0x2A])), Vec::<u8>::new());
    assert_eq!(respond(&request, &[0x00, 0x03, 0x02]), Vec::<u8>::new());
}

#[test]
fn a_damaged_reply_gives_an_exception() {
    let mut reply = seal(&[0x01, 0x03, 0x02, 0x00, 0x2A]);
    reply[4] = 0x2B;
    assert_eq!(
        respond(&read_request(), &reply),
        vec![0x00, 0x01, 0x00, 0x00, 0x00, 0x03, 0x01, 0x83, 0x0B]
    );
}

#[test]
fn a_reply_of_fewer_than_five_bytes_gives_an_exception() {
    for reply in [seal(&[0x01]), seal(&[0x01, 0x03]), vec![0x01]] {
        assert!(reply.len() < 5);
        assert_eq!(
            respond(&read_request(), &reply),
            vec![0x00, 0x01, 0x00, 0x00, 0x00, 0x03, 0x01, 0x83, 0x0B]
        );
    }
}

#[test]
fn a_reply_of_five_bytes_is_long_enough() {
    let reply = seal(&[0x01, 0x83, 0x02]);
    assert_eq!(reply.len(), 5);
    assert_eq!(
        respond(&read_request(), &reply),
        vec![0x00, 0x01, 0x00, 0x00, 0x00, 0x03, 0x01, 0x83, 0x02]
    );
}

#[test]
fn the_echo_repeats_the_transaction_id() {
    let request = Request {
        header: TcpHeader { transaction_id: 0xBEEF, protocol_id: 0, length: 6, unit_id: 0x11 },
        function_code: 0x10,
    };
    let reply = seal(&[0x11, 0x10, 0x00, 0x01, 0x00, 0x02]);
    assert_eq!(
        respond(&request, &reply),
        vec![0xBE, 0xEF, 0x00, 0x00, 0x00, 0x06, 0x11, 0x10, 0x00, 0x01, 0x00, 0x02]
    );
    assert_eq!(
        respond(&request, &[]),
        vec![0xBE, 0xEF, 0x00, 0x00, 0x00, 0x03, 0x11, 0x90, 0x0B]
    );
}

#[test]
fn the_length_of_a_long_reply_takes_both_bytes() {
    let mut payload = vec![0x01, 0x03, 0xFF];
    payload.extend_from_slice(&[0x5A; 297]);
    let reply = seal(&payload);
    let bytes = respond(&read_request(), &reply);
    assert_eq!(&bytes[..6], &[0x00, 0x01, 0x00, 0x00, 0x01, 0x2C]);
    assert_eq!(&bytes[6..], payload.as_slice());
}

#[test]
fn each_fault_has_its_kind() {
    assert_eq!(diagnose(&[]), Some(BusFault::NoBusReply));
    assert_eq!(diagnose(&[0x01]), Some(BusFault::ShortOrInvalidBusReply));
    assert_eq!(diagnose(&seal(&[0x01, 0x03])), Some(BusFault::ShortOrInvalidBusReply));
    let mut reply = seal(&[0x01, 0x03, 0x02, 0x00, 0x2A]);
    assert_eq!(diagnose(&reply), None);
    reply[6] ^= 0x80;
    assert_eq!(diagnose(&reply), Some(BusFault::ChecksumMismatch));
}

#[test]
fn diagnose_with_compares_against_the_given_checksum() {
    let reply = [0x01, 0x03, 0x02, 0x00, 0x2A, 0x34, 0x12];
    assert_eq!(diagnose_with(&reply, 0x1234), None);
    assert_eq!(diagnose_with(&reply, 0x3412), Some(BusFault::ChecksumMismatch));
    assert_eq!(diagnose_with(&reply[3..], 0x1234), Some(BusFault::ShortOrInvalidBusReply));
    assert_eq!(diagnose_with(&[], 0x1234), Some(BusFault::NoBusReply));
}

#[test]
fn render_follows_the_verdict() {
    let reply = [0x01, 0x03, 0x02, 0x00, 0x2A, 0x00, 0x00];
    assert_eq!(
        render(&read_request(), &reply, None),
        vec![0x00, 0x01, 0x00, 0x00, 0x00, 0x05, 0x01, 0x03, 0x02, 0x00, 0x2A]
    );
    for fault in
        [BusFault::NoBusReply, BusFault::ShortOrInvalidBusReply, BusFault::ChecksumMismatch]
    {
        assert_eq!(
            render(&read_request(), &reply, Some(fault)),
            vec![0x00, 0x01, 0x00, 0x00, 0x00, 0x03, 0x01, 0x83, 0x0B]
        );
    }
}

#[test]
fn render_never_cuts_a_reply_that_has_no_checksum() {
    assert_eq!(
        render(&read_request(), &[0x01], None),
        vec![0x00, 0x01, 0x00, 0x00, 0x00, 0x03, 0x01, 0x83, 0x0B]
    );
}
