//! One request and its reply, as the client side sees them.
//!
//! A request arrives as the bytes of one read from the socket. It is either
//! turned into a task for the bus or refused. What comes back from the bus is
//! judged, and the bytes for the client are built from the verdict.

use vstd::prelude::*;
use crate::checksum::{
    carried, carries, compute_checksum, covered, intact, modbus_crc16, sealed, CHECKSUM_LEN,
};
use crate::exception::{exception_body, synthesize_exception, TARGET_FAILED_TO_RESPOND};
use crate::header::{
    broadcast_address, echo, header_fields, parse_tcp_header, parsed, FrameError, TcpHeader,
    HEADER_LEN, UNIT_OFFSET,
};
use crate::task::{Task, TaskView};
use crate::wire::{append_bytes, be_bytes, split_word};

verus! {

/// Shortest reply of a device that is looked at any further: unit id,
/// function code, one byte of data and the checksum.
pub const MIN_REPLY_LEN: usize = 5;

/// What a connection remembers of a request while the bus works on it.
#[derive(Clone, Copy, Debug, PartialEq, Eq, Structural)]
pub struct Request {
    /// The header the request came with.
    pub header: TcpHeader,
    /// The function code of the request, zero where the request ends with
    /// its unit id.
    pub function_code: u8,
}

/// What was wrong with the reply of the bus. The client is told the same in
/// each case; the kinds differ for the log.
#[derive(Clone, Copy, Debug, PartialEq, Eq, Structural)]
pub enum BusFault {
    /// Nothing came back.
    NoBusReply,
    /// Fewer than five bytes came back.
    ShortOrInvalidBusReply,
    /// The reply does not end in the checksum of its bytes.
    ChecksumMismatch,
}

/// The function code of the request in `bytes`: the byte after the header,
/// zero where there is none.
pub open spec fn requested_function(bytes: Seq<u8>) -> u8 {
    if bytes.len() > HEADER_LEN {
        bytes[HEADER_LEN as int]
    } else {
        0
    }
}

/// Where the request in `bytes` ends: after as many bytes from the unit id
/// on as the length field announces, or where the bytes end, if that comes
/// first.
pub open spec fn forwarded_end(bytes: Seq<u8>) -> int
    recommends
        bytes.len() >= HEADER_LEN,
{
    let announced = UNIT_OFFSET + header_fields(bytes).length;
    if bytes.len() < announced {
        bytes.len() as int
    } else {
        announced
    }
}

/// The part of a request that travels on to the bus: the unit id and the
/// body, as many bytes as the length field announces. Bytes that were read
/// beyond them are not part of the request. Where fewer were read, what was
/// read from the unit id on travels on.
pub open spec fn forwarded(bytes: Seq<u8>) -> Seq<u8>
    recommends
        bytes.len() >= HEADER_LEN,
{
    bytes.subrange(UNIT_OFFSET as int, forwarded_end(bytes))
}

/// What a connection remembers of the request in `bytes`.
pub open spec fn request_of(bytes: Seq<u8>) -> Request
    recommends
        bytes.len() >= HEADER_LEN,
{
    Request { header: header_fields(bytes), function_code: requested_function(bytes) }
}

/// The task that the request in `bytes` becomes.
pub open spec fn task_of(bytes: Seq<u8>) -> TaskView
    recommends
        bytes.len() >= HEADER_LEN,
{
    TaskView {
        frame: sealed(forwarded(bytes)),
        broadcast: broadcast_address(bytes[UNIT_OFFSET as int]),
    }
}

/// What becomes of the bytes of a client: a request to remember and a task
/// for the bus, or a refusal. Only the header decides which.
pub open spec fn accepted(bytes: Seq<u8>) -> Result<(Request, TaskView), FrameError> {
    match parsed(bytes) {
        Ok(_) => Ok((request_of(bytes), task_of(bytes))),
        Err(e) => Err(e),
    }
}

/// The verdict on a reply whose checksum ought to be `crc`.
pub open spec fn fault_given(reply: Seq<u8>, crc: u16) -> Option<BusFault> {
    if reply.len() == 0 {
        Some(BusFault::NoBusReply)
    } else if reply.len() < MIN_REPLY_LEN {
        Some(BusFault::ShortOrInvalidBusReply)
    } else if carried(reply) != crc {
        Some(BusFault::ChecksumMismatch)
    } else {
        None
    }
}

/// The verdict on a reply.
pub open spec fn fault_of(reply: Seq<u8>) -> Option<BusFault> {
    fault_given(reply, modbus_crc16(covered(reply)))
}

/// The length field in front of a forwarded reply: the number of bytes
/// without the checksum, as far as sixteen bits hold it.
pub open spec fn forwarded_length(reply: Seq<u8>) -> u16
    recommends
        reply.len() >= CHECKSUM_LEN,
{
    ((reply.len() - CHECKSUM_LEN) % 0x1_0000) as u16
}

/// The bytes for the client, given the verdict on the reply. A broadcast is
/// never answered. Otherwise the header is echoed, followed by the reply
/// without its checksum or by an exception.
pub open spec fn rendered(request: Request, reply: Seq<u8>, fault: Option<BusFault>) -> Seq<u8> {
    if broadcast_address(request.header.unit_id) {
        Seq::empty()
    } else if fault is Some || reply.len() < CHECKSUM_LEN {
        echo(request.header) + exception_body(
            request.header.unit_id,
            request.function_code,
            TARGET_FAILED_TO_RESPOND,
        )
    } else {
        echo(request.header) + be_bytes(forwarded_length(reply)) + covered(reply)
    }
}

/// The bytes for the client after the bus has delivered `reply`.
pub open spec fn response(request: Request, reply: Seq<u8>) -> Seq<u8> {
    rendered(request, reply, fault_of(reply))
}

impl Request {
    /// Whether the request went to a broadcast address.
    pub fn is_broadcast(&self) -> (b: bool)
        ensures
            b == broadcast_address(self.header.unit_id),
    {
        self.header.is_broadcast()
    }
}

/// Turns the bytes read from a client into a request and a task, or says why
/// they are refused. The task holds the unit id and the body of the request,
/// sealed: the bytes that the length field announces, and none that were
/// read beyond them.
pub fn accept(bytes: &[u8]) -> (result: Result<(Request, Task), FrameError>)
    ensures
        match result {
            Ok((request, task)) => accepted(bytes@) == Ok::<(Request, TaskView), FrameError>(
                (request, task@),
            ),
            Err(e) => accepted(bytes@) == Err::<(Request, TaskView), FrameError>(e),
        },
{
    match parse_tcp_header(bytes) {
        Err(e) => Err(e),
        Ok(header) => {
            let function_code = if bytes.len() > HEADER_LEN {
                bytes[HEADER_LEN]
            } else {
                0
            };
            let length: usize = header.length as usize;
            let announced: usize = UNIT_OFFSET + length;
            let end: usize = if bytes.len() < announced {
                bytes.len()
            } else {
                announced
            };
            let payload = vstd::slice::slice_subrange(bytes, UNIT_OFFSET, end);
            let task = Task::new(payload, header.is_broadcast());
            Ok((Request { header, function_code }, task))
        },
    }
}

/// Judges `reply`, where `crc` is the checksum of all its bytes but the last
/// two.
pub fn diagnose_with(reply: &[u8], crc: u16) -> (fault: Option<BusFault>)
    ensures
        fault == fault_given(reply@, crc),
{
    if reply.len() == 0 {
        Some(BusFault::NoBusReply)
    } else if reply.len() < MIN_REPLY_LEN {
        Some(BusFault::ShortOrInvalidBusReply)
    } else if !carries(reply, crc) {
        Some(BusFault::ChecksumMismatch)
    } else {
        None
    }
}

/// Judges what the bus delivered: `None` where the reply has five bytes or
/// more and is intact.
pub fn diagnose(reply: &[u8]) -> (fault: Option<BusFault>)
    ensures
        fault == fault_of(reply@),
        fault is None <==> reply@.len() >= MIN_REPLY_LEN && intact(reply@),
{
    if reply.len() < CHECKSUM_LEN {
        diagnose_with(reply, 0)
    } else {
        let covered = vstd::slice::slice_subrange(reply, 0, reply.len() - CHECKSUM_LEN);
        let crc = compute_checksum(covered);
        diagnose_with(reply, crc)
    }
}

/// Builds the bytes for the client from a reply and the verdict on it.
/// Nothing is built for a broadcast.
pub fn render(request: &Request, reply: &[u8], fault: Option<BusFault>) -> (bytes: Vec<u8>)
    ensures
        bytes@ == rendered(*request, reply@, fault),
{
    let mut bytes: Vec<u8> = Vec::new();
    if request.is_broadcast() {
        return bytes;
    }
    let (id_hi, id_lo) = split_word(request.header.transaction_id);
    let (proto_hi, proto_lo) = split_word(request.header.protocol_id);
    bytes.push(id_hi);
    bytes.push(id_lo);
    bytes.push(proto_hi);
    bytes.push(proto_lo);
    assert(bytes@ == echo(request.header));
    if fault.is_some() || reply.len() < CHECKSUM_LEN {
        let body = synthesize_exception(
            request.header.unit_id,
            request.function_code,
            TARGET_FAILED_TO_RESPOND,
        );
        append_bytes(&mut bytes, body.as_slice());
    } else {
        let end = reply.len() - CHECKSUM_LEN;
        let (len_hi, len_lo) = split_word((end % 0x1_0000) as u16);
        bytes.push(len_hi);
        bytes.push(len_lo);
        append_bytes(&mut bytes, vstd::slice::slice_subrange(reply, 0, end));
    }
    bytes
}

/// Builds the bytes for the client after the bus has delivered `reply`. The
/// result is empty where nothing is to be sent.
pub fn respond(request: &Request, reply: &[u8]) -> (bytes: Vec<u8>)
    ensures
        bytes@ == response(*request, reply@),
{
    let fault = diagnose(reply);
    render(request, reply, fault)
}

/// A request that was read in full is forwarded as announced: from the
/// unit id on, exactly as many bytes as the length field says.
pub proof fn lemma_forwarded_as_announced(bytes: Seq<u8>)
    requires
        bytes.len() >= UNIT_OFFSET + header_fields(bytes).length,
    ensures
        forwarded(bytes) == bytes.subrange(
            UNIT_OFFSET as int,
            UNIT_OFFSET + header_fields(bytes).length,
        ),
        forwarded(bytes).len() == header_fields(bytes).length,
{
}

/// Bytes that follow a request in the same read change nothing: neither
/// whether the request is accepted, nor what is remembered of it, nor the
/// task it becomes.
pub proof fn lemma_later_bytes_are_left_out(request: Seq<u8>, later: Seq<u8>)
    requires
        parsed(request) is Ok,
        request.len() == UNIT_OFFSET + header_fields(request).length,
    ensures
        forwarded(request + later) == forwarded(request),
        forwarded(request) == request.subrange(UNIT_OFFSET as int, request.len() as int),
        accepted(request + later) == accepted(request),
{
    let both = request + later;
    assert(header_fields(both) == header_fields(request));
    assert(forwarded(both) =~= forwarded(request));
    assert(requested_function(both) == requested_function(request));
    assert(parsed(both) == parsed(request));
}

/// A request that breaks off before its announced end is forwarded as far
/// as it was read.
pub proof fn lemma_short_request_is_forwarded_as_read(bytes: Seq<u8>)
    requires
        HEADER_LEN <= bytes.len() < UNIT_OFFSET + header_fields(bytes).length,
    ensures
        forwarded(bytes) == bytes.subrange(UNIT_OFFSET as int, bytes.len() as int),
{
}

} // verus!
