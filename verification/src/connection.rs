//! The handler of one client connection.
//!
//! A handler reads a request, hands a task to the bus, waits for the reply
//! and writes the answer, again and again until the client is refused or
//! cannot be written to. Like the worker of the bus it is a state machine:
//! it takes events and asks for actions, and the caller owns the socket and
//! the queue.

use vstd::prelude::*;
use crate::exchange::{
    accept, accepted, diagnose, fault_of, render, response, BusFault, Request,
};
use crate::header::{broadcast_address, FrameError};
use crate::task::{Task, TaskView};

verus! {

/// Most bytes that are taken from the socket in one read: the longest
/// request there is, six bytes of header and as many more as the length
/// field may announce.
pub const READ_BUFFER_LEN: usize = 256;

/// Where the handler stands.
#[derive(Clone, Copy, Debug, PartialEq, Eq, Structural)]
pub enum ConnectionPhase {
    /// Waiting for bytes from the client.
    Reading,
    /// A task is with the bus; this is the request it was made from.
    AwaitingReply(Request),
    /// An answer is being written to the client.
    Writing,
    /// The connection is over.
    Closed,
}

/// Why a connection was ended.
#[derive(Clone, Copy, Debug, PartialEq, Eq, Structural)]
pub enum CloseReason {
    /// The bytes of the client were not a request.
    Refused(FrameError),
    /// The answer could not be written.
    WriteFailed,
}

/// What the handler is told.
#[derive(Debug, PartialEq, Eq)]
pub enum ConnectionEvent {
    /// A read from the socket ended with these bytes; none where it failed
    /// or the client has gone.
    DataRead(Vec<u8>),
    /// The bus handed over its reply to the task; empty where there is none.
    ReplyArrived(Vec<u8>),
    /// The write to the socket ended; `true` where it succeeded.
    Sent(bool),
}

/// What the handler asks for.
#[derive(Debug, PartialEq, Eq)]
pub enum ConnectionAction {
    /// Read from the socket.
    Read,
    /// Queue the task for the bus and wait for its reply.
    Submit(Task),
    /// Write these bytes to the socket. The fault, if any, is for the log.
    Send(Vec<u8>, Option<BusFault>),
    /// End the connection.
    Close(CloseReason),
}

/// An event as contracts see it.
pub enum ConnectionEventView {
    DataRead(Seq<u8>),
    ReplyArrived(Seq<u8>),
    Sent(bool),
}

/// An action as contracts see it.
pub enum ConnectionActionView {
    Read,
    Submit(TaskView),
    Send(Seq<u8>, Option<BusFault>),
    Close(CloseReason),
}

impl View for ConnectionEvent {
    type V = ConnectionEventView;

    open spec fn view(&self) -> ConnectionEventView {
        match self {
            ConnectionEvent::DataRead(bytes) => ConnectionEventView::DataRead(bytes@),
            ConnectionEvent::ReplyArrived(reply) => ConnectionEventView::ReplyArrived(reply@),
            ConnectionEvent::Sent(ok) => ConnectionEventView::Sent(*ok),
        }
    }
}

impl View for ConnectionAction {
    type V = ConnectionActionView;

    open spec fn view(&self) -> ConnectionActionView {
        match self {
            ConnectionAction::Read => ConnectionActionView::Read,
            ConnectionAction::Submit(task) => ConnectionActionView::Submit(task@),
            ConnectionAction::Send(bytes, fault) => ConnectionActionView::Send(bytes@, *fault),
            ConnectionAction::Close(reason) => ConnectionActionView::Close(*reason),
        }
    }
}

/// The move of a handler on an event that is due in its phase: the phase
/// after it and the action it asks for. `None` where the event is not due;
/// the handler then stays as it is. A closed handler stays closed.
pub open spec fn transition(phase: ConnectionPhase, event: ConnectionEventView) -> Option<
    (ConnectionPhase, ConnectionActionView),
> {
    match (phase, event) {
        (ConnectionPhase::Reading, ConnectionEventView::DataRead(bytes)) => match accepted(
            bytes,
        ) {
            Ok((request, task)) => Some(
                (ConnectionPhase::AwaitingReply(request), ConnectionActionView::Submit(task)),
            ),
            Err(e) => Some(
                (ConnectionPhase::Closed, ConnectionActionView::Close(CloseReason::Refused(e))),
            ),
        },
        (ConnectionPhase::AwaitingReply(request), ConnectionEventView::ReplyArrived(reply)) => {
            if broadcast_address(request.header.unit_id) {
                Some((ConnectionPhase::Reading, ConnectionActionView::Read))
            } else {
                Some(
                    (
                        ConnectionPhase::Writing,
                        ConnectionActionView::Send(response(request, reply), fault_of(reply)),
                    ),
                )
            }
        },
        (ConnectionPhase::Writing, ConnectionEventView::Sent(ok)) => {
            if ok {
                Some((ConnectionPhase::Reading, ConnectionActionView::Read))
            } else {
                Some(
                    (
                        ConnectionPhase::Closed,
                        ConnectionActionView::Close(CloseReason::WriteFailed),
                    ),
                )
            }
        },
        _ => None,
    }
}

/// The handler of one connection.
#[derive(Clone, Copy, Debug, PartialEq, Eq, Structural)]
pub struct ConnectionHandler {
    /// Where the handler stands.
    pub phase: ConnectionPhase,
}

impl ConnectionHandler {
    /// A handler for a connection that was just accepted. Its first action,
    /// not asked for by any event, is to read.
    pub fn new() -> (handler: ConnectionHandler)
        ensures
            handler.phase == ConnectionPhase::Reading,
    {
        ConnectionHandler { phase: ConnectionPhase::Reading }
    }

    /// Whether the connection is over.
    pub fn is_closed(&self) -> (closed: bool)
        ensures
            closed == (self.phase == ConnectionPhase::Closed),
    {
        match self.phase {
            ConnectionPhase::Closed => true,
            _ => false,
        }
    }

    /// Takes `event` and says what is to be done next. An event that is not
    /// due in the present phase changes nothing and yields `None`.
    pub fn step(&mut self, event: ConnectionEvent) -> (action: Option<ConnectionAction>)
        ensures
            match transition(old(self).phase, event@) {
                Some((next, wanted)) => final(self).phase == next && action is Some
                    && action->Some_0@ == wanted,
                None => final(self).phase == old(self).phase && action is None,
            },
    {
        match self.phase {
            ConnectionPhase::Reading => match event {
                ConnectionEvent::DataRead(bytes) => match accept(bytes.as_slice()) {
                    Ok((request, task)) => {
                        self.phase = ConnectionPhase::AwaitingReply(request);
                        Some(ConnectionAction::Submit(task))
                    },
                    Err(e) => {
                        self.phase = ConnectionPhase::Closed;
                        Some(ConnectionAction::Close(CloseReason::Refused(e)))
                    },
                },
                _ => None,
            },
            ConnectionPhase::AwaitingReply(request) => match event {
                ConnectionEvent::ReplyArrived(reply) => {
                    if request.is_broadcast() {
                        self.phase = ConnectionPhase::Reading;
                        Some(ConnectionAction::Read)
                    } else {
                        let fault = diagnose(reply.as_slice());
                        let bytes = render(&request, reply.as_slice(), fault);
                        self.phase = ConnectionPhase::Writing;
                        Some(ConnectionAction::Send(bytes, fault))
                    }
                },
                _ => None,
            },
            ConnectionPhase::Writing => match event {
                ConnectionEvent::Sent(ok) => {
                    if ok {
                        self.phase = ConnectionPhase::Reading;
                        Some(ConnectionAction::Read)
                    } else {
                        self.phase = ConnectionPhase::Closed;
                        Some(ConnectionAction::Close(CloseReason::WriteFailed))
                    }
                },
                _ => None,
            },
            ConnectionPhase::Closed => None,
        }
    }
}

/// Once a connection is closed, no event moves its handler or makes it ask
/// for anything: what was refused is never answered.
pub proof fn lemma_closed_is_final(event: ConnectionEventView)
    ensures
        transition(ConnectionPhase::Closed, event) is None,
{
}

} // verus!
