use studio_launcher::supervisor::SidecarSlot;
use studio_launcher::supervisor::TerminateAction;

#[test]
fn fresh_slot_is_empty() {
    let slot = SidecarSlot::new();
    assert!(slot.is_empty());
}

#[test]
fn store_fills_the_slot() {
    let mut slot = SidecarSlot::new();
    slot.store(4242);
    assert!(!slot.is_empty());
}

#[test]
fn terminate_empties_the_slot_and_names_the_process() {
    let mut slot = SidecarSlot::new();
    slot.store(4242);
    let action = slot.terminate();
    assert_eq!(action, TerminateAction::KillAndReap { pid: 4242 });
    assert!(slot.is_empty());
}

#[test]
fn terminate_twice_is_a_no_op_the_second_time() {
    let mut slot = SidecarSlot::new();
    slot.store(4242);
    let first = slot.terminate();
    let second = slot.terminate();
    assert_eq!(first, TerminateAction::KillAndReap { pid: 4242 });
    assert_eq!(second, TerminateAction::AlreadyGone);
    assert!(slot.is_empty());
}

#[test]
fn terminate_on_empty_slot_does_nothing() {
    let mut slot = SidecarSlot::new();
    let action = slot.terminate();
    assert_eq!(action, TerminateAction::AlreadyGone);
    assert!(slot.is_empty());
}
