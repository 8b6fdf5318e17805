//! What can go wrong, and how platform failures are told apart.

use vstd::prelude::*;
use crate::platform::{error_code, hresult_from_win32, spec_hresult_from_win32};

verus! {

/// A setting that the caller must correct before a session can be created.
#[derive(Debug, Clone, Copy, PartialEq, Eq, Structural)]
pub enum ConfigError {
    /// `frame_queue_length` is below one.
    FrameQueueLength,
    /// `capture_cursor` is set, and the platform cannot configure it.
    CaptureCursor,
    /// `include_secondary_windows` is set, and the platform cannot configure it.
    IncludeSecondaryWindows,
    /// `display_border` is set, and the platform cannot configure it.
    DisplayBorder,
    /// `min_update_interval` is set, and the platform cannot configure it.
    MinUpdateInterval,
}

/// The failures this library reports.
#[derive(Debug, Clone, Copy, PartialEq, Eq, Structural)]
pub enum WgcError {
    /// The settings were refused; nothing was created.
    Config(ConfigError),
    /// The device, the compositor or the drawing subsystem failed with this
    /// `HRESULT`.
    Platform(i32),
    /// The picker was dismissed without a choice.
    NoItemSelected,
}

impl WgcError {
    /// The error for a failed platform call: a platform error that carries
    /// the `HRESULT` of the failure.
    pub fn from_platform(error: &windows::core::Error) -> (r: WgcError)
        ensures
            r == WgcError::Platform(crate::platform::error_hresult(*error)),
    {
        WgcError::Platform(error_code(error))
    }

    /// The error for a Win32 error code, as `GetLastError` gives it.
    pub fn from_win32(code: u32) -> (r: WgcError)
        ensures
            r == WgcError::Platform(spec_hresult_from_win32(code) as i32),
    {
        WgcError::Platform(hresult_from_win32(code))
    }

    /// The error for a picker that ended without an item. A picker that was
    /// dismissed reports the success code zero with no item; every other code
    /// is a platform failure.
    pub fn from_pick_failure(code: i32) -> (r: WgcError)
        ensures
            code == 0 ==> r == WgcError::NoItemSelected,
            code != 0 ==> r == WgcError::Platform(code),
    {
        if code == 0 {
            WgcError::NoItemSelected
        } else {
            WgcError::Platform(code)
        }
    }

    /// The `HRESULT` of a platform failure.
    pub fn code(&self) -> (r: Option<i32>)
        ensures
            r == match *self {
                WgcError::Platform(c) => Some(c),
                _ => None::<i32>,
            },
    {
        match self {
            WgcError::Platform(c) => Some(*c),
            _ => None,
        }
    }
}

} // verus!
