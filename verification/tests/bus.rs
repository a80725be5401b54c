use modbusgw::bus::{BusAction, BusEvent, BusPhase, BusWorker};
use modbusgw::checksum::seal;
use modbusgw::task::Task;

fn read_task() -> Task {
    Task::new(&[0x01, 0x03, 0x00, 0x00, 0x00, 0x01], false)
}

fn drive(worker: &mut BusWorker, events: Vec<BusEvent>) -> Vec<BusAction> {
    let mut actions = Vec::new();
    for event in events {
        if let Some(action) = worker.step(event) {
            actions.push(action);
        }
    }
    actions
}

#[test]
fn a_new_worker_is_idle() {
    let worker = BusWorker::new(20);
    assert_eq!(worker.phase, BusPhase::Idle);
    assert_eq!(worker.rest_millis, 20);
}

#[test]
fn a_task_is_written_first() {
    let mut worker = BusWorker::new(20);
    let action = worker.step(BusEvent::TaskArrived(read_task()));
    assert_eq!(
        action,
        Some(BusAction::Transmit(vec![0x01, 0x03, 0x00, 0x00, 0x00, 0x01, 0x84, 0x0A]))
    );
    assert_eq!(worker.phase, BusPhase::Writing { function_code: 3, broadcast: false });
}

#[test]
fn a_read_reply_is_collected_in_two_reads() {
    let mut worker = BusWorker::new(20);
    let reply = seal(&[0x01, 0x03, 0x02, 0x00, 0x2A]);
    let actions = drive(
        &mut worker,
        vec![
            BusEvent::TaskArrived(read_task()),
            BusEvent::Written(true),
            BusEvent::Received(reply[..3].to_vec()),
            BusEvent::Received(reply[3..].to_vec()),
            BusEvent::Delivered,
            BusEvent::Rested,
        ],
    );
    assert_eq!(
        actions,
        vec![
            BusAction::Transmit(seal(&[0x01, 0x03, 0x00, 0x00, 0x00, 0x01])),
            BusAction::Receive(3),
            BusAction::Receive(4),
            BusAction::Deliver(reply),
            BusAction::Rest(20),
            BusAction::AwaitTask,
        ]
    );
    assert_eq!(worker.phase, BusPhase::Idle);
}

#[test]
fn a_write_reply_has_five_more_bytes() {
    let mut worker = BusWorker::new(5);
    let reply = seal(&[0x11, 0x06, 0x00, 0x01, 0x00, 0x03]);
    let actions = drive(
        &mut worker,
        vec![
            BusEvent::TaskArrived(Task::new(&[0x11, 0x06, 0x00, 0x01, 0x00, 0x03], false)),
            BusEvent::Written(true),
            BusEvent::Received(reply[..3].to_vec()),
            BusEvent::Received(reply[3..].to_vec()),
        ],
    );
    assert_eq!(actions[1], BusAction::Receive(3));
    assert_eq!(actions[2], BusAction::Receive(5));
    assert_eq!(actions[3], BusAction::Deliver(reply));
}

#[test]
fn an_exception_reply_has_two_more_bytes() {
    let mut worker = BusWorker::new(5);
    let reply = seal(&[0x01, 0x83, 0x02]);
    let actions = drive(
        &mut worker,
        vec![
            BusEvent::TaskArrived(read_task()),
            BusEvent::Written(true),
            BusEvent::Received(reply[..3].to_vec()),
            BusEvent::Received(reply[3..].to_vec()),
        ],
    );
    assert_eq!(actions[2], BusAction::Receive(2));
    assert_eq!(actions[3], BusAction::Deliver(reply));
}

#[test]
fn a_silent_device_gives_an_empty_reply() {
    let mut worker = BusWorker::new(5);
    let actions = drive(
        &mut worker,
        vec![
            BusEvent::TaskArrived(read_task()),
            BusEvent::Written(true),
            BusEvent::Received(vec![]),
        ],
    );
    assert_eq!(actions[2], BusAction::Deliver(vec![]));
    assert_eq!(worker.phase, BusPhase::Delivering);
}

#[test]
fn a_head_of_fewer_than_three_bytes_gives_an_empty_reply() {
    for head in [vec![0x01], vec![0x01, 0x03]] {
        let mut worker = BusWorker::new(5);
        let actions = drive(
            &mut worker,
            vec![
                BusEvent::TaskArrived(read_task()),
                BusEvent::Written(true),
                BusEvent::Received(head),
            ],
        );
        assert_eq!(actions[2], BusAction::Deliver(vec![]));
    }
}

#[test]
fn a_head_of_more_than_three_bytes_gives_an_empty_reply() {
    let mut worker = BusWorker::new(5);
    let actions = drive(
        &mut worker,
        vec![
            BusEvent::TaskArrived(read_task()),
            BusEvent::Written(true),
            BusEvent::Received(vec![0x01, 0x03, 0x02, 0x00]),
        ],
    );
    assert_eq!(actions[2], BusAction::Deliver(vec![]));
}

#[test]
fn a_short_trailer_gives_an_empty_reply() {
    let mut worker = BusWorker::new(5);
    let actions = drive(
        &mut worker,
        vec![
            BusEvent::TaskArrived(read_task()),
            BusEvent::Written(true),
            BusEvent::Received(vec![0x01, 0x03, 0x02]),
            BusEvent::Received(vec![0x00, 0x2A, 0x38]),
        ],
    );
    assert_eq!(actions[2], BusAction::Receive(4));
    assert_eq!(actions[3], BusAction::Deliver(vec![]));
}

#[test]
fn the_reply_to_an_unsupported_function_is_dropped() {
    let mut worker = BusWorker::new(5);
    let actions = drive(
        &mut worker,
        vec![
            BusEvent::TaskArrived(Task::new(&[0x01, 0x17, 0x00, 0x00], false)),
            BusEvent::Written(true),
            BusEvent::Received(vec![0x01, 0x17, 0x02]),
        ],
    );
    assert_eq!(actions, vec![
        BusAction::Transmit(seal(&[0x01, 0x17, 0x00, 0x00])),
        BusAction::Receive(3),
        BusAction::Deliver(vec![]),
    ]);
}

#[test]
fn nothing_is_read_after_a_broadcast() {
    let mut worker = BusWorker::new(7);
    let actions = drive(
        &mut worker,
        vec![
            BusEvent::TaskArrived(Task::new(&[0x00, 0x06, 0x00, 0x01, 0x00, 0x03], true)),
            BusEvent::Written(true),
            BusEvent::Delivered,
            BusEvent::Rested,
        ],
    );
    assert_eq!(
        actions,
        vec![
            BusAction::Transmit(seal(&[0x00, 0x06, 0x00, 0x01, 0x00, 0x03])),
            BusAction::Deliver(vec![]),
            BusAction::Rest(7),
            BusAction::AwaitTask,
        ]
    );
}

#[test]
fn a_failed_write_gives_an_empty_reply_and_the_worker_goes_on() {
    let mut worker = BusWorker::new(7);
    let first = drive(
        &mut worker,
        vec![
            BusEvent::TaskArrived(read_task()),
            BusEvent::Written(false),
            BusEvent::Delivered,
            BusEvent::Rested,
        ],
    );
    assert_eq!(first[1], BusAction::Deliver(vec![]));
    assert_eq!(first[2], BusAction::Rest(7));
    assert_eq!(worker.phase, BusPhase::Idle);
    let second = worker.step(BusEvent::TaskArrived(read_task()));
    assert_eq!(second, Some(BusAction::Transmit(seal(&[0x01, 0x03, 0x00, 0x00, 0x00, 0x01]))));
}

#[test]
fn the_longest_reply_is_read_in_full() {
    let mut payload = vec![0x01, 0x03, 0xFF];
    payload.extend_from_slice(&[0xA5; 255]);
    let reply = seal(&payload);
    let mut worker = BusWorker::new(1);
    let actions = drive(
        &mut worker,
        vec![
            BusEvent::TaskArrived(read_task()),
            BusEvent::Written(true),
            BusEvent::Received(reply[..3].to_vec()),
            BusEvent::Received(reply[3..].to_vec()),
        ],
    );
    assert_eq!(actions[2], BusAction::Receive(257));
    assert_eq!(actions[3], BusAction::Deliver(reply));
}

#[test]
fn events_that_are_not_due_change_nothing() {
    let mut worker = BusWorker::new(3);
    assert_eq!(worker.step(BusEvent::Written(true)), None);
    assert_eq!(worker.step(BusEvent::Received(vec![1, 3, 2])), None);
    assert_eq!(worker.step(BusEvent::Delivered), None);
    assert_eq!(worker.step(BusEvent::Rested), None);
    assert_eq!(worker, BusWorker::new(3));

    worker.step(BusEvent::TaskArrived(read_task()));
    let writing = worker;
    assert_eq!(worker.step(BusEvent::TaskArrived(read_task())), None);
    assert_eq!(worker.step(BusEvent::Received(vec![1, 3, 2])), None);
    assert_eq!(worker.step(BusEvent::Rested), None);
    assert_eq!(worker, writing);
}

#[test]
fn no_task_is_taken_while_one_is_open() {
    let mut worker = BusWorker::new(3);
    let reply = seal(&[0x01, 0x03, 0x02, 0x00, 0x2A]);
    let script = vec![
        BusEvent::TaskArrived(read_task()),
        BusEvent::TaskArrived(read_task()),
        BusEvent::Written(true),
        BusEvent::TaskArrived(read_task()),
        BusEvent::Received(reply[..3].to_vec()),
        BusEvent::TaskArrived(read_task()),
        BusEvent::Received(reply[3..].to_vec()),
        BusEvent::TaskArrived(read_task()),
        BusEvent::Delivered,
        BusEvent::TaskArrived(read_task()),
        BusEvent::Rested,
        BusEvent::TaskArrived(read_task()),
    ];
    let actions = drive(&mut worker, script);
    let writes: Vec<usize> = actions
        .iter()
        .enumerate()
        .filter(|(_, action)| matches!(action, BusAction::Transmit(_)))
        .map(|(index, _)| index)
        .collect();
    assert_eq!(writes, vec![0, 6]);
    assert!(matches!(actions[3], BusAction::Deliver(_)));
    assert_eq!(actions[4], BusAction::Rest(3));
    assert_eq!(actions[5], BusAction::AwaitTask);
}
