//! The unit of work that a connection hands to the serial bus.

use vstd::prelude::*;
use crate::checksum::{intact, seal, sealed};

verus! {

/// One request for the serial bus: the frame to write, and whether any
/// device is going to answer it.
///
/// A task is made from a payload and holds that payload sealed; its frame is
/// therefore never shorter than the two bytes of a checksum.
#[derive(Debug, PartialEq, Eq)]
pub struct Task {
    frame: Vec<u8>,
    broadcast: bool,
}

/// A task as contracts see it.
pub struct TaskView {
    /// The bytes that go on the bus: payload and checksum.
    pub frame: Seq<u8>,
    /// Whether the request is addressed to every device, so that none replies.
    pub broadcast: bool,
}

impl TaskView {
    /// The function code that a reply is matched against: the second byte
    /// of the frame.
    pub open spec fn function_code(self) -> u8
        recommends
            self.frame.len() >= 2,
    {
        self.frame[1]
    }
}

impl View for Task {
    type V = TaskView;

    closed spec fn view(&self) -> TaskView {
        TaskView { frame: self.frame@, broadcast: self.broadcast }
    }
}

impl Task {
    #[verifier::type_invariant]
    spec fn frame_is_sealed(&self) -> bool {
        intact(self.frame@)
    }

    /// Seals `payload` into a task.
    pub fn new(payload: &[u8], broadcast: bool) -> (task: Task)
        ensures
            task@ == (TaskView { frame: sealed(payload@), broadcast }),
            intact(task@.frame),
    {
        Task { frame: seal(payload), broadcast }
    }

    /// The frame to write to the bus. It is intact.
    pub fn frame(&self) -> (frame: &[u8])
        ensures
            frame@ == self@.frame,
            intact(frame@),
    {
        proof {
            use_type_invariant(self);
        }
        self.frame.as_slice()
    }

    /// Whether no reply is to be read.
    pub fn is_broadcast(&self) -> (broadcast: bool)
        ensures
            broadcast == self@.broadcast,
    {
        self.broadcast
    }

    /// The second byte of the frame, which a device repeats in its reply.
    pub fn function_code(&self) -> (code: u8)
        ensures
            self@.frame.len() >= 2,
            code == self@.function_code(),
    {
        proof {
            use_type_invariant(self);
        }
        self.frame[1]
    }

    /// Gives up the task for its frame.
    pub fn into_frame(self) -> (frame: Vec<u8>)
        ensures
            frame@ == self@.frame,
            intact(frame@),
    {
        proof {
            use_type_invariant(&self);
        }
        self.frame
    }
}

} // verus!
