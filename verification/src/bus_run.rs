//! What a worker of the bus does over time.
//!
//! A run is the series of actions that a worker asks for while it is told a
//! series of events. The statements here hold of every run: that the bus
//! carries one request at a time with a pause after each, what one cycle
//! with a task looks like, and which reply it ends with.

use vstd::prelude::*;
use crate::bus::{transition, BusActionView, BusEventView, BusPhase, BusWorker};
use crate::reply_length::{trailer_length, REPLY_HEAD_LEN};
use crate::task::TaskView;

verus! {

/// What a worker has come to after a series of events: its state, and the
/// actions it asked for, in order.
pub struct BusRun {
    pub worker: BusWorker,
    pub actions: Seq<BusActionView>,
}

/// The worker after `events`, one after the other. Events that are not due
/// leave no trace.
pub open spec fn run(worker: BusWorker, events: Seq<BusEventView>) -> BusRun
    decreases events.len(),
{
    if events.len() == 0 {
        BusRun { worker, actions: Seq::empty() }
    } else {
        let before = run(worker, events.drop_last());
        match transition(before.worker, events.last()) {
            Some((next, action)) => BusRun { worker: next, actions: before.actions.push(action) },
            None => before,
        }
    }
}

/// Whether the actions keep the bus to one request at a time. A frame is
/// written first of all, or straight after a reply was handed over, the line
/// was left quiet for `rest_millis` milliseconds and a new task was asked
/// for. Bytes are read only straight after a write or another read.
pub open spec fn one_at_a_time(actions: Seq<BusActionView>, rest_millis: u64) -> bool {
    forall|i: int|
        0 <= i < actions.len() ==> {
            &&& #[trigger] actions[i] is Transmit ==> i == 0 || {
                &&& i >= 3
                &&& actions[i - 3] is Deliver
                &&& actions[i - 2] == BusActionView::Rest(rest_millis)
                &&& actions[i - 1] is AwaitTask
            }
            &&& actions[i] is Receive ==> i >= 1 && (actions[i - 1] is Transmit || actions[i
                - 1] is Receive)
        }
}

/// How the last actions of a run fit the phase that the worker is in.
spec fn phase_fits(at: BusRun, rest_millis: u64) -> bool {
    let a = at.actions;
    let n = a.len() as int;
    &&& at.worker.rest_millis == rest_millis
    &&& match at.worker.phase {
        BusPhase::Idle => n == 0 || {
            &&& n >= 3
            &&& a[n - 3] is Deliver
            &&& a[n - 2] == BusActionView::Rest(rest_millis)
            &&& a[n - 1] is AwaitTask
        },
        BusPhase::Writing { .. } => n >= 1 && a[n - 1] is Transmit,
        BusPhase::ReadingHead { .. } => n >= 1 && a[n - 1] is Receive,
        BusPhase::ReadingTrailer { .. } => n >= 1 && a[n - 1] is Receive,
        BusPhase::Delivering => n >= 1 && a[n - 1] is Deliver,
        BusPhase::Resting => {
            &&& n >= 2
            &&& a[n - 2] is Deliver
            &&& a[n - 1] == BusActionView::Rest(rest_millis)
        },
    }
}

proof fn lemma_run_keeps_order(rest_millis: u64, events: Seq<BusEventView>)
    ensures
        phase_fits(run(BusWorker { phase: BusPhase::Idle, rest_millis }, events), rest_millis),
        one_at_a_time(
            run(BusWorker { phase: BusPhase::Idle, rest_millis }, events).actions,
            rest_millis,
        ),
    decreases events.len(),
{
    let start = BusWorker { phase: BusPhase::Idle, rest_millis };
    if events.len() > 0 {
        lemma_run_keeps_order(rest_millis, events.drop_last());
        let before = run(start, events.drop_last());
        let after = run(start, events);
        match transition(before.worker, events.last()) {
            Some((next, action)) => {
                let n = before.actions.len() as int;
                assert(after.actions == before.actions.push(action));
                assert forall|i: int| 0 <= i < n implies after.actions[i]
                    == before.actions[i] by {}
                assert(after.actions[n] == action);
            },
            None => {},
        }
    }
}

/// From its start on, whatever it is told and in whatever order, a worker
/// never writes a frame while an earlier request is still open: every write
/// but the first comes straight after a delivery, a pause of the full length
/// and the call for a new task, and every read belongs to the write before it.
pub proof fn lemma_one_request_at_a_time(rest_millis: u64, events: Seq<BusEventView>)
    ensures
        one_at_a_time(
            run(BusWorker { phase: BusPhase::Idle, rest_millis }, events).actions,
            rest_millis,
        ),
{
    lemma_run_keeps_order(rest_millis, events);
}

/// Whether the worker reads anything after writing the frame of `task`.
pub open spec fn reply_awaited(task: TaskView, written: bool) -> bool {
    written && !task.broadcast
}

/// Whether `head` is a full head from which the rest of the reply can be sized.
pub open spec fn head_sizes_reply(task: TaskView, head: Seq<u8>) -> bool {
    head.len() == REPLY_HEAD_LEN && trailer_length(task.function_code(), head[1], head[2]) > 0
}

/// Whether `reply` is as long as its own head announces to a request for
/// `function_code`: three bytes of head, and as many more as they call for.
pub open spec fn complete(function_code: u8, reply: Seq<u8>) -> bool {
    &&& reply.len() >= REPLY_HEAD_LEN
    &&& trailer_length(function_code, reply[1], reply[2]) > 0
    &&& reply.len() == REPLY_HEAD_LEN + trailer_length(function_code, reply[1], reply[2])
}

/// The first three bytes of a reply.
pub open spec fn head_of(reply: Seq<u8>) -> Seq<u8>
    recommends
        reply.len() >= REPLY_HEAD_LEN,
{
    reply.subrange(0, REPLY_HEAD_LEN as int)
}

/// The bytes of a reply after its head.
pub open spec fn trailer_of(reply: Seq<u8>) -> Seq<u8>
    recommends
        reply.len() >= REPLY_HEAD_LEN,
{
    reply.subrange(REPLY_HEAD_LEN as int, reply.len() as int)
}

/// The reply that the worker hands over for `task` when the device behaves
/// like this: the write succeeds or not, the first read ends with `head`
/// and the second with `trailer`. It is the whole reply where a reply is
/// awaited, its head came in full and everything announced followed; in any
/// other case it is empty.
pub open spec fn outcome(task: TaskView, written: bool, head: Seq<u8>, trailer: Seq<u8>) -> Seq<
    u8,
> {
    if reply_awaited(task, written) && head_sizes_reply(task, head) && trailer.len()
        == trailer_length(task.function_code(), head[1], head[2]) {
        head + trailer
    } else {
        Seq::empty()
    }
}

/// The events of one full cycle of the worker with `task`, for a caller who
/// does what the worker asks: the reads are reported only where they were
/// asked for.
pub open spec fn cycle_events(task: TaskView, written: bool, head: Seq<u8>, trailer: Seq<u8>)
    -> Seq<BusEventView> {
    let begun = Seq::empty().push(BusEventView::TaskArrived(task)).push(
        BusEventView::Written(written),
    );
    let read = if !reply_awaited(task, written) {
        begun
    } else if !head_sizes_reply(task, head) {
        begun.push(BusEventView::Received(head))
    } else {
        begun.push(BusEventView::Received(head)).push(BusEventView::Received(trailer))
    };
    read.push(BusEventView::Delivered).push(BusEventView::Rested)
}

/// The actions of one full cycle of the worker with `task`.
pub open spec fn cycle_actions(
    task: TaskView,
    written: bool,
    head: Seq<u8>,
    trailer: Seq<u8>,
    rest_millis: u64,
) -> Seq<BusActionView> {
    let begun = Seq::empty().push(BusActionView::Transmit(task.frame));
    let read = if !reply_awaited(task, written) {
        begun
    } else if !head_sizes_reply(task, head) {
        begun.push(BusActionView::Receive(REPLY_HEAD_LEN))
    } else {
        begun.push(BusActionView::Receive(REPLY_HEAD_LEN)).push(
            BusActionView::Receive(
                trailer_length(task.function_code(), head[1], head[2]) as usize,
            ),
        )
    };
    read.push(BusActionView::Deliver(outcome(task, written, head, trailer))).push(
        BusActionView::Rest(rest_millis),
    ).push(BusActionView::AwaitTask)
}

/// A run that goes on by one event goes on by one transition.
pub proof fn lemma_run_goes_on(worker: BusWorker, events: Seq<BusEventView>, event: BusEventView)
    ensures
        run(worker, events.push(event)) == match transition(run(worker, events).worker, event) {
            Some((next, action)) => BusRun {
                worker: next,
                actions: run(worker, events).actions.push(action),
            },
            None => run(worker, events),
        },
{
    assert(events.push(event).drop_last() =~= events);
}

/// One cycle of an idle worker, for any task and any behaviour of the
/// device: the frame of the task is written once, the reads follow as far as
/// the reply can be sized, the outcome is handed over, the line is left
/// quiet, and the worker is idle again.
pub proof fn lemma_cycle(
    worker: BusWorker,
    task: TaskView,
    written: bool,
    head: Seq<u8>,
    trailer: Seq<u8>,
)
    requires
        worker.phase == BusPhase::Idle,
    ensures
        run(worker, cycle_events(task, written, head, trailer)) == (BusRun {
            worker,
            actions: cycle_actions(task, written, head, trailer, worker.rest_millis),
        }),
{
    let none = Seq::<BusEventView>::empty();
    let e1 = none.push(BusEventView::TaskArrived(task));
    let e2 = e1.push(BusEventView::Written(written));
    lemma_run_goes_on(worker, none, BusEventView::TaskArrived(task));
    lemma_run_goes_on(worker, e1, BusEventView::Written(written));
    let read = if !reply_awaited(task, written) {
        e2
    } else if !head_sizes_reply(task, head) {
        lemma_run_goes_on(worker, e2, BusEventView::Received(head));
        e2.push(BusEventView::Received(head))
    } else {
        let e3 = e2.push(BusEventView::Received(head));
        lemma_run_goes_on(worker, e2, BusEventView::Received(head));
        lemma_run_goes_on(worker, e3, BusEventView::Received(trailer));
        assert(seq![head[0], head[1], head[2]] + trailer =~= head + trailer);
        e3.push(BusEventView::Received(trailer))
    };
    assert(run(worker, read).worker.phase == BusPhase::Delivering);
    assert(run(worker, read).actions.last() == BusActionView::Deliver(
        outcome(task, written, head, trailer),
    ));
    lemma_run_goes_on(worker, read, BusEventView::Delivered);
    lemma_run_goes_on(worker, read.push(BusEventView::Delivered), BusEventView::Rested);
    let end = run(worker, cycle_events(task, written, head, trailer));
    assert(end.worker == worker);
    assert(end.actions =~= cycle_actions(task, written, head, trailer, worker.rest_millis));
}

/// What the worker hands over is nothing, or a reply of the length that its
/// own head announces: never a part of one, never fewer than five bytes and
/// never more than 260.
pub proof fn lemma_outcome_is_nothing_or_complete(
    task: TaskView,
    written: bool,
    head: Seq<u8>,
    trailer: Seq<u8>,
)
    ensures
        outcome(task, written, head, trailer).len() == 0 || {
            &&& outcome(task, written, head, trailer) == head + trailer
            &&& complete(task.function_code(), outcome(task, written, head, trailer))
            &&& 5 <= outcome(task, written, head, trailer).len() <= 260
        },
        outcome(task, written, head, trailer).len() > 0 ==> written && !task.broadcast,
{
}

/// A reply that is complete and is read as the worker asks for it, first
/// its head and then the rest, is handed over unchanged.
pub proof fn lemma_complete_reply_is_handed_over(task: TaskView, reply: Seq<u8>)
    requires
        !task.broadcast,
        complete(task.function_code(), reply),
    ensures
        outcome(task, true, head_of(reply), trailer_of(reply)) == reply,
{
    assert(head_of(reply) + trailer_of(reply) =~= reply);
}

/// In one cycle the frame of the task is written once, before anything
/// else, and nothing else is written.
pub proof fn lemma_cycle_writes_once(
    task: TaskView,
    written: bool,
    head: Seq<u8>,
    trailer: Seq<u8>,
    rest_millis: u64,
)
    ensures
        cycle_actions(task, written, head, trailer, rest_millis)[0] == BusActionView::Transmit(
            task.frame,
        ),
        forall|i: int|
            0 < i < cycle_actions(task, written, head, trailer, rest_millis).len()
                ==> !(#[trigger] cycle_actions(task, written, head, trailer, rest_millis)[i]
                is Transmit),
{
}

/// A run over two series of events, one after the other, is the run over
/// the first followed by the run over the second from where the first ended.
pub proof fn lemma_run_in_two_parts(
    worker: BusWorker,
    first: Seq<BusEventView>,
    second: Seq<BusEventView>,
)
    ensures
        run(worker, first + second) == (BusRun {
            worker: run(run(worker, first).worker, second).worker,
            actions: run(worker, first).actions + run(run(worker, first).worker, second).actions,
        }),
    decreases second.len(),
{
    let halfway = run(worker, first);
    if second.len() == 0 {
        assert(first + second =~= first);
        assert(halfway.actions + Seq::<BusActionView>::empty() =~= halfway.actions);
    } else {
        lemma_run_in_two_parts(worker, first, second.drop_last());
        assert((first + second).drop_last() =~= first + second.drop_last());
        assert((first + second).last() == second.last());
        let before = run(halfway.worker, second.drop_last());
        match transition(before.worker, second.last()) {
            Some((next, action)) => {
                assert((halfway.actions + before.actions).push(action) =~= halfway.actions
                    + before.actions.push(action));
            },
            None => {},
        }
    }
}

/// One task and the way the device behaves while the worker is busy with
/// it: whether the write succeeds, and what the first and the second read
/// end with.
pub struct Exchange {
    pub task: TaskView,
    pub written: bool,
    pub head: Seq<u8>,
    pub trailer: Seq<u8>,
}

/// The events of one cycle after the other, one cycle for each exchange.
pub open spec fn session_events(exchanges: Seq<Exchange>) -> Seq<BusEventView>
    decreases exchanges.len(),
{
    if exchanges.len() == 0 {
        Seq::empty()
    } else {
        let x = exchanges.last();
        session_events(exchanges.drop_last()) + cycle_events(x.task, x.written, x.head, x.trailer)
    }
}

/// The actions of one cycle after the other, one cycle for each exchange.
pub open spec fn session_actions(exchanges: Seq<Exchange>, rest_millis: u64) -> Seq<
    BusActionView,
>
    decreases exchanges.len(),
{
    if exchanges.len() == 0 {
        Seq::empty()
    } else {
        let x = exchanges.last();
        session_actions(exchanges.drop_last(), rest_millis) + cycle_actions(
            x.task,
            x.written,
            x.head,
            x.trailer,
            rest_millis,
        )
    }
}

/// Tasks are served in the order in which they arrive, each in a cycle of
/// its own that is over before the next begins: a worker that is idle and
/// is handed one task after the other goes through the cycle of the first,
/// then through that of the second, and so on, and is idle at the end.
pub proof fn lemma_tasks_are_served_in_order(worker: BusWorker, exchanges: Seq<Exchange>)
    requires
        worker.phase == BusPhase::Idle,
    ensures
        run(worker, session_events(exchanges)) == (BusRun {
            worker,
            actions: session_actions(exchanges, worker.rest_millis),
        }),
    decreases exchanges.len(),
{
    if exchanges.len() > 0 {
        let x = exchanges.last();
        lemma_tasks_are_served_in_order(worker, exchanges.drop_last());
        lemma_cycle(worker, x.task, x.written, x.head, x.trailer);
        lemma_run_in_two_parts(
            worker,
            session_events(exchanges.drop_last()),
            cycle_events(x.task, x.written, x.head, x.trailer),
        );
    }
}

} // verus!
