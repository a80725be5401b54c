//! What the parts of the gateway guarantee together.
//!
//! The handler of a connection and the worker of the bus never meet but
//! through the queue. The statements here follow one request on its way
//! from the client to the bus and back: what the client gets depends on its
//! request and on how the device behaves, and on nothing else.

use vstd::prelude::*;
use crate::bus::BusActionView;
use crate::bus_run::{
    complete, cycle_actions, head_of, lemma_complete_reply_is_handed_over, lemma_cycle_writes_once,
    outcome, trailer_of,
};
use crate::checksum::{covered, intact, lemma_sealed_is_intact, sealed, CHECKSUM_LEN};
use crate::connection::{
    transition, CloseReason, ConnectionActionView, ConnectionEventView, ConnectionPhase,
};
use crate::exception::{exception_body, TARGET_FAILED_TO_RESPOND};
use crate::exchange::{fault_of, forwarded, request_of, response, task_of};
use crate::header::{broadcast_address, echo, header_fields, parsed, UNIT_OFFSET};
use crate::wire::be_bytes;

verus! {

/// What a client gets for the bytes it sent, where the device behaves like
/// this: the write succeeds or not, the first read from it ends with `head`
/// and the second with `trailer`. `None` where the bytes are refused and
/// the connection is closed; otherwise the bytes that are written back, none
/// where the request is left unanswered.
pub open spec fn answer(bytes: Seq<u8>, written: bool, head: Seq<u8>, trailer: Seq<u8>) -> Option<
    Seq<u8>,
> {
    if parsed(bytes) is Ok {
        Some(response(request_of(bytes), outcome(task_of(bytes), written, head, trailer)))
    } else {
        None
    }
}

/// Every read from a client ends in exactly one of two ways, and the header
/// alone decides in which. Where the header is valid, one task goes to the
/// bus; it holds the unit id and the body of the request, as many bytes as
/// the length field announces, under a checksum that verifies. Where it is
/// not, the connection is closed for the reason that parsing gives, and
/// nothing goes to the bus.
pub proof fn lemma_one_frame_or_refusal(bytes: Seq<u8>)
    ensures
        parsed(bytes) is Ok ==> transition(
            ConnectionPhase::Reading,
            ConnectionEventView::DataRead(bytes),
        ) == Some(
            (
                ConnectionPhase::AwaitingReply(request_of(bytes)),
                ConnectionActionView::Submit(task_of(bytes)),
            ),
        ),
        parsed(bytes) is Err ==> transition(
            ConnectionPhase::Reading,
            ConnectionEventView::DataRead(bytes),
        ) == Some(
            (
                ConnectionPhase::Closed,
                ConnectionActionView::Close(CloseReason::Refused(parsed(bytes)->Err_0)),
            ),
        ),
        task_of(bytes).frame == sealed(forwarded(bytes)),
        covered(task_of(bytes).frame) == forwarded(bytes),
        intact(task_of(bytes).frame),
        bytes.len() >= UNIT_OFFSET + header_fields(bytes).length ==> covered(
            task_of(bytes).frame,
        ) == bytes.subrange(UNIT_OFFSET as int, UNIT_OFFSET + header_fields(bytes).length),
{
    lemma_sealed_is_intact(forwarded(bytes));
}

/// The task of a request puts its frame on the bus once: in the cycle that
/// the worker goes through with it, however the device behaves, the first
/// action writes the sealed request and no later action writes anything.
pub proof fn lemma_request_is_written_once(
    bytes: Seq<u8>,
    written: bool,
    head: Seq<u8>,
    trailer: Seq<u8>,
    rest_millis: u64,
)
    ensures
        cycle_actions(task_of(bytes), written, head, trailer, rest_millis)[0]
            == BusActionView::Transmit(sealed(forwarded(bytes))),
        forall|i: int|
            0 < i < cycle_actions(task_of(bytes), written, head, trailer, rest_millis).len()
                ==> !(#[trigger] cycle_actions(
                task_of(bytes),
                written,
                head,
                trailer,
                rest_millis,
            )[i] is Transmit),
{
    lemma_cycle_writes_once(task_of(bytes), written, head, trailer, rest_millis);
}

/// The handler sends what `answer` says. With the reply that the worker
/// hands over for its task, the handler of a request that is no broadcast
/// asks for the answer to be written; that of a broadcast asks for nothing
/// to be written and reads on.
pub proof fn lemma_handler_sends_the_answer(
    bytes: Seq<u8>,
    written: bool,
    head: Seq<u8>,
    trailer: Seq<u8>,
)
    requires
        parsed(bytes) is Ok,
    ensures
        transition(
            ConnectionPhase::AwaitingReply(request_of(bytes)),
            ConnectionEventView::ReplyArrived(outcome(task_of(bytes), written, head, trailer)),
        ) == if broadcast_address(bytes[UNIT_OFFSET as int]) {
            Some((ConnectionPhase::Reading, ConnectionActionView::Read))
        } else {
            Some(
                (
                    ConnectionPhase::Writing,
                    ConnectionActionView::Send(
                        answer(bytes, written, head, trailer)->Some_0,
                        fault_of(outcome(task_of(bytes), written, head, trailer)),
                    ),
                ),
            )
        },
{
}

/// A reply that a device gives in full reaches the client. Where the
/// request is no broadcast and the device answers with an intact reply of
/// the length that its head announces, the client gets the echoed header,
/// the length of the reply without its checksum, and the reply without its
/// checksum.
pub proof fn lemma_complete_reply_is_forwarded(bytes: Seq<u8>, reply: Seq<u8>)
    requires
        parsed(bytes) is Ok,
        !broadcast_address(bytes[UNIT_OFFSET as int]),
        complete(task_of(bytes).function_code(), reply),
        intact(reply),
    ensures
        outcome(task_of(bytes), true, head_of(reply), trailer_of(reply)) == reply,
        fault_of(reply) is None,
        answer(bytes, true, head_of(reply), trailer_of(reply)) == Some(
            echo(request_of(bytes).header) + be_bytes((reply.len() - CHECKSUM_LEN) as u16)
                + covered(reply),
        ),
{
    lemma_complete_reply_is_handed_over(task_of(bytes), reply);
}

/// A silent device is reported to the client. Where the request is no
/// broadcast and the first read from the device yields nothing, whether the
/// write went through or not, the client gets the echoed header and an
/// exception for the function it asked for, with the code for a target that
/// failed to respond: nine bytes in all.
pub proof fn lemma_silence_is_reported(bytes: Seq<u8>, written: bool, trailer: Seq<u8>)
    requires
        parsed(bytes) is Ok,
        !broadcast_address(bytes[UNIT_OFFSET as int]),
    ensures
        outcome(task_of(bytes), written, Seq::empty(), trailer) == Seq::<u8>::empty(),
        answer(bytes, written, Seq::empty(), trailer) == Some(
            echo(request_of(bytes).header) + exception_body(
                bytes[UNIT_OFFSET as int],
                request_of(bytes).function_code,
                TARGET_FAILED_TO_RESPOND,
            ),
        ),
        answer(bytes, written, Seq::empty(), trailer)->Some_0.len() == 9,
{
}

/// Whatever is wrong with a reply, the client of a request that is no
/// broadcast is told the same as for no reply at all.
pub proof fn lemma_every_fault_is_reported_alike(bytes: Seq<u8>, reply: Seq<u8>)
    requires
        parsed(bytes) is Ok,
        !broadcast_address(bytes[UNIT_OFFSET as int]),
        fault_of(reply) is Some,
    ensures
        response(request_of(bytes), reply) == response(request_of(bytes), Seq::empty()),
{
}

/// A broadcast is never answered. However the device behaves, the worker
/// hands over an empty reply, and the client gets no byte; nor would it for
/// any other reply.
pub proof fn lemma_broadcast_is_never_answered(
    bytes: Seq<u8>,
    written: bool,
    head: Seq<u8>,
    trailer: Seq<u8>,
    reply: Seq<u8>,
)
    requires
        parsed(bytes) is Ok,
        broadcast_address(bytes[UNIT_OFFSET as int]),
    ensures
        outcome(task_of(bytes), written, head, trailer) == Seq::<u8>::empty(),
        answer(bytes, written, head, trailer) == Some(Seq::<u8>::empty()),
        response(request_of(bytes), reply) == Seq::<u8>::empty(),
{
}

/// A refused read gets no answer, whatever the device would do.
pub proof fn lemma_refusal_is_not_answered(
    bytes: Seq<u8>,
    written: bool,
    head: Seq<u8>,
    trailer: Seq<u8>,
)
    requires
        parsed(bytes) is Err,
    ensures
        answer(bytes, written, head, trailer) is None,
{
}

} // verus!
