//! The decisions of an interactive pick: when to stop pumping messages, and
//! what a pick without an item means.

use vstd::prelude::*;
use crate::error::WgcError;
use crate::stream::WaitOutcome;

verus! {

/// What to do after one wait while the picker is open.
#[derive(Debug, Clone, Copy, PartialEq, Eq, Structural)]
pub enum PickerStep {
    /// The picker is still open: wait again.
    Continue,
    /// Stop waiting and read the picker's result.
    Finish,
    /// Give up with this error.
    Fail(WgcError),
}

/// What follows one wait while the picker is open, given how the wait ended
/// and, for a wait that dispatched a message, whether the pick is still
/// running afterwards.
pub open spec fn picker_step_of(outcome: WaitOutcome, still_running: bool) -> PickerStep {
    match outcome {
        WaitOutcome::Failed(code) => PickerStep::Fail(
            WgcError::Platform(crate::platform::spec_hresult_from_win32(code) as i32),
        ),
        WaitOutcome::Quit => PickerStep::Finish,
        WaitOutcome::Dispatched => if still_running {
            PickerStep::Continue
        } else {
            PickerStep::Finish
        },
    }
}

/// What to do after one wait while the picker is open.
///
/// A failed wait ends the pick with the `HRESULT` of its Win32 code. The
/// termination signal ends the waiting, and so does a dispatched message
/// after which the pick is no longer running; `still_running` is not looked
/// at unless a message was dispatched.
pub fn picker_step(outcome: WaitOutcome, still_running: bool) -> (r: PickerStep)
    ensures
        r == picker_step_of(outcome, still_running),
{
    match outcome {
        WaitOutcome::Failed(code) => PickerStep::Fail(WgcError::from_win32(code)),
        WaitOutcome::Quit => PickerStep::Finish,
        WaitOutcome::Dispatched => {
            if still_running {
                PickerStep::Continue
            } else {
                PickerStep::Finish
            }
        },
    }
}

} // verus!
