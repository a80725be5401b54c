use modbusgw::checksum::verify;
use modbusgw::task::Task;

#[test]
fn a_task_holds_its_payload_sealed() {
    let task = Task::new(&[0x01, 0x03, 0x00, 0x00, 0x00, 0x01], false);
    assert_eq!(task.frame(), &[0x01, 0x03, 0x00, 0x00, 0x00, 0x01, 0x84, 0x0A]);
    assert!(!task.is_broadcast());
    assert_eq!(task.function_code(), 0x03);
}

#[test]
fn every_task_frame_verifies() {
    let payloads: [&[u8]; 4] = [&[], &[0x07], &[0x00, 0x06, 0x00, 0x01, 0x00, 0x03], &[0xFF; 40]];
    for payload in payloads {
        let task = Task::new(payload, true);
        assert!(verify(task.frame()));
        assert_eq!(task.frame().len(), payload.len() + 2);
        assert!(task.is_broadcast());
    }
}

#[test]
fn a_task_without_payload_is_a_bare_checksum() {
    let task = Task::new(&[], false);
    assert_eq!(task.frame(), &[0xFF, 0xFF]);
    assert_eq!(task.function_code(), 0xFF);
}

#[test]
fn a_task_gives_up_its_frame() {
    let task = Task::new(&[0x11, 0x06, 0x00, 0x01, 0x00, 0x03], false);
    let kept = task.frame().to_vec();
    assert_eq!(task.into_frame(), kept);
}

#[test]
fn tasks_compare_by_frame_and_flag() {
    assert_eq!(Task::new(&[1, 3], false), Task::new(&[1, 3], false));
    assert_ne!(Task::new(&[1, 3], false), Task::new(&[1, 3], true));
    assert_ne!(Task::new(&[1, 3], false), Task::new(&[1, 4], false));
}
