//! Asking the running platform what it offers.

use vstd::prelude::*;
use crate::error::WgcError;
use crate::platform::{capture_supported, error_hresult, property_present};
use crate::settings::{Capabilities, WgcSettings};

verus! {

/// Whether the session class of the running platform has the named property.
fn session_has_property(property: &str) -> (r: Result<bool, WgcError>)
    requires
        property@.len() <= 64,
    ensures
        r matches Err(err) ==> err is Platform,
{
    proof {
        reveal_strlit("Windows.Graphics.Capture.GraphicsCaptureSession");
    }
    probe_answer(property_present("Windows.Graphics.Capture.GraphicsCaptureSession", property))
}

/// Whether the platform supports graphics capture at all.
pub fn is_wgc_supported() -> (r: Result<bool, WgcError>)
    ensures
        r matches Err(err) ==> err is Platform,
{
    probe_answer(capture_supported())
}

/// Whether the border round captured content can be switched.
pub fn is_border_configurable() -> (r: Result<bool, WgcError>)
    ensures
        r matches Err(err) ==> err is Platform,
{
    proof {
        reveal_strlit("IsBorderRequired");
    }
    session_has_property("IsBorderRequired")
}

/// Whether cursor capture can be switched.
pub fn is_cursor_configurable() -> (r: Result<bool, WgcError>)
    ensures
        r matches Err(err) ==> err is Platform,
{
    proof {
        reveal_strlit("IsCursorCaptureEnabled");
    }
    session_has_property("IsCursorCaptureEnabled")
}

/// Whether the platform knows a dirty region mode.
pub fn is_dirty_region_mode_configurable() -> (r: Result<bool, WgcError>)
    ensures
        r matches Err(err) ==> err is Platform,
{
    proof {
        reveal_strlit("DirtyRegionMode");
    }
    session_has_property("DirtyRegionMode")
}

/// Whether secondary windows can be included or left out.
pub fn is_include_secondary_windows_configurable() -> (r: Result<bool, WgcError>)
    ensures
        r matches Err(err) ==> err is Platform,
{
    proof {
        reveal_strlit("IncludeSecondaryWindows");
    }
    session_has_property("IncludeSecondaryWindows")
}

/// Whether a minimum update interval can be set.
pub fn is_min_update_interval_configurable() -> (r: Result<bool, WgcError>)
    ensures
        r matches Err(err) ==> err is Platform,
{
    proof {
        reveal_strlit("MinUpdateInterval");
    }
    session_has_property("MinUpdateInterval")
}

impl Capabilities {
    /// Asks the platform about each optional setting that `settings` sets, in
    /// the order in which a session applies them, and about no other: a
    /// setting left unset counts as not offered. The first failure ends the
    /// probe.
    pub fn probe_for(settings: &WgcSettings) -> (r: Result<Capabilities, WgcError>)
        ensures
            Self::asks_nothing(*settings) ==> r == Ok::<Capabilities, WgcError>(
                Capabilities {
                    cursor: false,
                    border: false,
                    secondary_windows: false,
                    min_update_interval: false,
                },
            ),
            match r {
                Ok(found) => {
                    &&& settings.capture_cursor is None ==> !found.cursor
                    &&& settings.include_secondary_windows is None ==> !found.secondary_windows
                    &&& settings.display_border is None ==> !found.border
                    &&& settings.min_update_interval is None ==> !found.min_update_interval
                },
                Err(err) => err is Platform,
            },
    {
        let mut found = Capabilities::none();
        if settings.capture_cursor.is_some() {
            match is_cursor_configurable() {
                Ok(present) => {
                    found.cursor = present;
                },
                Err(e) => {
                    return Err(e);
                },
            }
        }
        if settings.include_secondary_windows.is_some() {
            match is_include_secondary_windows_configurable() {
                Ok(present) => {
                    found.secondary_windows = present;
                },
                Err(e) => {
                    return Err(e);
                },
            }
        }
        if settings.display_border.is_some() {
            match is_border_configurable() {
                Ok(present) => {
                    found.border = present;
                },
                Err(e) => {
                    return Err(e);
                },
            }
        }
        if settings.min_update_interval.is_some() {
            match is_min_update_interval_configurable() {
                Ok(present) => {
                    found.min_update_interval = present;
                },
                Err(e) => {
                    return Err(e);
                },
            }
        }
        Ok(found)
    }

    /// Whether settings set none of the optional settings, so that a probe
    /// for them has nothing to ask of the platform.
    pub open spec fn asks_nothing(settings: WgcSettings) -> bool {
        &&& settings.capture_cursor is None
        &&& settings.include_secondary_windows is None
        &&& settings.display_border is None
        &&& settings.min_update_interval is None
    }
}

/// What a probe reports for an answer of the platform: the answer itself
/// where the platform gave one, and where it failed, a platform error with
/// the `HRESULT` of the failure.
pub open spec fn probe_answer_of(answer: Result<bool, windows::core::Error>) -> Result<
    bool,
    WgcError,
> {
    match answer {
        Ok(present) => Ok(present),
        Err(e) => Err(WgcError::Platform(error_hresult(e))),
    }
}

/// What a probe reports for an answer of the platform.
pub fn probe_answer(answer: Result<bool, windows::core::Error>) -> (r: Result<bool, WgcError>)
    ensures
        r == probe_answer_of(answer),
{
    match answer {
        Ok(present) => Ok(present),
        Err(e) => Err(WgcError::from_platform(&e)),
    }
}

} // verus!
