//! The worker that owns the serial bus.
//!
//! The bus is half duplex and has one master: one request is on it at a
//! time, and after each the line is left quiet for a while. The worker is a
//! state machine. It is told what happened (an event) and answers with what
//! is to be done next (an action); the caller does the writing, the reading
//! and the sleeping.

use vstd::prelude::*;
use crate::reply_length::{expected_reply_trailer_length, trailer_length, REPLY_HEAD_LEN};
use crate::task::{Task, TaskView};

verus! {

/// Where the worker stands in its cycle.
#[derive(Clone, Copy, Debug, PartialEq, Eq, Structural)]
pub enum BusPhase {
    /// Waiting for a task.
    Idle,
    /// A frame is being written.
    Writing {
        /// The function code of the request.
        function_code: u8,
        /// Whether the request is a broadcast.
        broadcast: bool,
    },
    /// The first three bytes of a reply are being read.
    ReadingHead {
        /// The function code of the request.
        function_code: u8,
    },
    /// The rest of a reply is being read.
    ReadingTrailer {
        /// First byte of the reply.
        unit_id: u8,
        /// Second byte of the reply.
        echoed: u8,
        /// Third byte of the reply.
        third: u8,
        /// Number of bytes that are still to come.
        expected: usize,
    },
    /// The outcome is being handed to the connection that asked.
    Delivering,
    /// The line is being left quiet.
    Resting,
}

/// The worker: its place in the cycle and the pause it keeps between frames.
#[derive(Clone, Copy, Debug, PartialEq, Eq, Structural)]
pub struct BusWorker {
    /// Where the worker stands.
    pub phase: BusPhase,
    /// Milliseconds of quiet after each task.
    pub rest_millis: u64,
}

/// What the worker is told.
#[derive(Debug, PartialEq, Eq)]
pub enum BusEvent {
    /// The queue handed over its next task.
    TaskArrived(Task),
    /// The write to the device ended; `true` where the device took the frame.
    Written(bool),
    /// A read from the device ended with these bytes; none where it failed
    /// or timed out.
    Received(Vec<u8>),
    /// The outcome was handed over.
    Delivered,
    /// The pause is over.
    Rested,
}

/// What the worker asks for.
#[derive(Debug, PartialEq, Eq)]
pub enum BusAction {
    /// Take the next task from the queue.
    AwaitTask,
    /// Write this frame to the device.
    Transmit(Vec<u8>),
    /// Read this many bytes from the device, within its timeout.
    Receive(usize),
    /// Hand this reply to the connection that asked; empty where there is none.
    Deliver(Vec<u8>),
    /// Keep the line quiet for this many milliseconds.
    Rest(u64),
}

/// An event as contracts see it.
pub enum BusEventView {
    TaskArrived(TaskView),
    Written(bool),
    Received(Seq<u8>),
    Delivered,
    Rested,
}

/// An action as contracts see it.
pub enum BusActionView {
    AwaitTask,
    Transmit(Seq<u8>),
    Receive(usize),
    Deliver(Seq<u8>),
    Rest(u64),
}

impl View for BusEvent {
    type V = BusEventView;

    open spec fn view(&self) -> BusEventView {
        match self {
            BusEvent::TaskArrived(task) => BusEventView::TaskArrived(task@),
            BusEvent::Written(ok) => BusEventView::Written(*ok),
            BusEvent::Received(data) => BusEventView::Received(data@),
            BusEvent::Delivered => BusEventView::Delivered,
            BusEvent::Rested => BusEventView::Rested,
        }
    }
}

impl View for BusAction {
    type V = BusActionView;

    open spec fn view(&self) -> BusActionView {
        match self {
            BusAction::AwaitTask => BusActionView::AwaitTask,
            BusAction::Transmit(frame) => BusActionView::Transmit(frame@),
            BusAction::Receive(count) => BusActionView::Receive(*count),
            BusAction::Deliver(reply) => BusActionView::Deliver(reply@),
            BusAction::Rest(millis) => BusActionView::Rest(*millis),
        }
    }
}

/// The worker in `phase`, with the pause of `worker`.
pub open spec fn in_phase(worker: BusWorker, phase: BusPhase) -> BusWorker {
    BusWorker { phase, rest_millis: worker.rest_millis }
}

/// The move of the worker on an event that is due in its phase: the state
/// after it and the action it asks for. `None` where the event is not due;
/// the worker then stays as it is.
pub open spec fn transition(worker: BusWorker, event: BusEventView) -> Option<
    (BusWorker, BusActionView),
> {
    match (worker.phase, event) {
        (BusPhase::Idle, BusEventView::TaskArrived(task)) => Some(
            (
                in_phase(
                    worker,
                    BusPhase::Writing {
                        function_code: task.function_code(),
                        broadcast: task.broadcast,
                    },
                ),
                BusActionView::Transmit(task.frame),
            ),
        ),
        (BusPhase::Writing { function_code, broadcast }, BusEventView::Written(ok)) => {
            if ok && !broadcast {
                Some(
                    (
                        in_phase(worker, BusPhase::ReadingHead { function_code }),
                        BusActionView::Receive(REPLY_HEAD_LEN),
                    ),
                )
            } else {
                Some(
                    (in_phase(worker, BusPhase::Delivering), BusActionView::Deliver(Seq::empty())),
                )
            }
        },
        (BusPhase::ReadingHead { function_code }, BusEventView::Received(head)) => {
            let expected = trailer_length(function_code, head[1], head[2]);
            if head.len() == REPLY_HEAD_LEN && expected > 0 {
                Some(
                    (
                        in_phase(
                            worker,
                            BusPhase::ReadingTrailer {
                                unit_id: head[0],
                                echoed: head[1],
                                third: head[2],
                                expected: expected as usize,
                            },
                        ),
                        BusActionView::Receive(expected as usize),
                    ),
                )
            } else {
                Some(
                    (in_phase(worker, BusPhase::Delivering), BusActionView::Deliver(Seq::empty())),
                )
            }
        },
        (
            BusPhase::ReadingTrailer { unit_id, echoed, third, expected },
            BusEventView::Received(trailer),
        ) => {
            let reply = if trailer.len() == expected {
                seq![unit_id, echoed, third] + trailer
            } else {
                Seq::empty()
            };
            Some((in_phase(worker, BusPhase::Delivering), BusActionView::Deliver(reply)))
        },
        (BusPhase::Delivering, BusEventView::Delivered) => Some(
            (in_phase(worker, BusPhase::Resting), BusActionView::Rest(worker.rest_millis)),
        ),
        (BusPhase::Resting, BusEventView::Rested) => Some(
            (in_phase(worker, BusPhase::Idle), BusActionView::AwaitTask),
        ),
        _ => None,
    }
}

impl BusWorker {
    /// A worker that waits for its first task and rests `rest_millis`
    /// milliseconds after each.
    pub fn new(rest_millis: u64) -> (worker: BusWorker)
        ensures
            worker == (BusWorker { phase: BusPhase::Idle, rest_millis }),
    {
        BusWorker { phase: BusPhase::Idle, rest_millis }
    }

    /// Takes `event` and says what is to be done next. An event that is not
    /// due in the present phase changes nothing and yields `None`.
    pub fn step(&mut self, event: BusEvent) -> (action: Option<BusAction>)
        ensures
            match transition(*old(self), event@) {
                Some((next, wanted)) => *final(self) == next && action is Some
                    && action->Some_0@ == wanted,
                None => *final(self) == *old(self) && action is None,
            },
    {
        match self.phase {
            BusPhase::Idle => match event {
                BusEvent::TaskArrived(task) => {
                    let function_code = task.function_code();
                    let broadcast = task.is_broadcast();
                    self.phase = BusPhase::Writing { function_code, broadcast };
                    Some(BusAction::Transmit(task.into_frame()))
                },
                _ => None,
            },
            BusPhase::Writing { function_code, broadcast } => match event {
                BusEvent::Written(ok) => {
                    if ok && !broadcast {
                        self.phase = BusPhase::ReadingHead { function_code };
                        Some(BusAction::Receive(REPLY_HEAD_LEN))
                    } else {
                        self.phase = BusPhase::Delivering;
                        Some(BusAction::Deliver(Vec::new()))
                    }
                },
                _ => None,
            },
            BusPhase::ReadingHead { function_code } => match event {
                BusEvent::Received(head) => {
                    if head.len() == REPLY_HEAD_LEN {
                        let expected = expected_reply_trailer_length(
                            function_code,
                            head[1],
                            head[2],
                        );
                        if expected > 0 {
                            self.phase = BusPhase::ReadingTrailer {
                                unit_id: head[0],
                                echoed: head[1],
                                third: head[2],
                                expected,
                            };
                            return Some(BusAction::Receive(expected));
                        }
                    }
                    self.phase = BusPhase::Delivering;
                    Some(BusAction::Deliver(Vec::new()))
                },
                _ => None,
            },
            BusPhase::ReadingTrailer { unit_id, echoed, third, expected } => match event {
                BusEvent::Received(trailer) => {
                    let mut reply: Vec<u8> = Vec::new();
                    if trailer.len() == expected {
                        reply.push(unit_id);
                        reply.push(echoed);
                        reply.push(third);
                        let mut trailer = trailer;
                        let ghost tail = trailer@;
                        reply.append(&mut trailer);
                        assert(reply@ =~= seq![unit_id, echoed, third] + tail);
                    }
                    self.phase = BusPhase::Delivering;
                    Some(BusAction::Deliver(reply))
                },
                _ => None,
            },
            BusPhase::Delivering => match event {
                BusEvent::Delivered => {
                    self.phase = BusPhase::Resting;
                    Some(BusAction::Rest(self.rest_millis))
                },
                _ => None,
            },
            BusPhase::Resting => match event {
                BusEvent::Rested => {
                    self.phase = BusPhase::Idle;
                    Some(BusAction::AwaitTask)
                },
                _ => None,
            },
        }
    }
}

} // verus!
