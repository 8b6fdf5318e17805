use wgc::{picker_step, PickerStep, WaitOutcome, WgcError};

#[test]
fn picker_waits_on_while_the_pick_is_running() {
    assert_eq!(picker_step(WaitOutcome::Dispatched, true), PickerStep::Continue);
}

#[test]
fn picker_finishes_once_the_pick_has_ended() {
    assert_eq!(picker_step(WaitOutcome::Dispatched, false), PickerStep::Finish);
}

#[test]
fn picker_finishes_on_the_termination_signal() {
    assert_eq!(picker_step(WaitOutcome::Quit, true), PickerStep::Finish);
    assert_eq!(picker_step(WaitOutcome::Quit, false), PickerStep::Finish);
}

#[test]
fn picker_gives_up_when_the_wait_fails() {
    assert_eq!(
        picker_step(WaitOutcome::Failed(1400), true),
        PickerStep::Fail(WgcError::Platform(0x8007_0578u32 as i32))
    );
    assert_eq!(
        picker_step(WaitOutcome::Failed(5), false),
        PickerStep::Fail(WgcError::Platform(0x8007_0005u32 as i32))
    );
}
