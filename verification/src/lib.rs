//! Capture of on-screen content through Windows.Graphics.Capture: the session
//! lifecycle, the pull engine that turns frame notifications into a sequence,
//! and the arithmetic of pixel readback. Every function here carries a contract
//! that Verus proves; the calls into the `windows` crate stand in `platform`.
//!
//! A session is made with [`Wgc::new`] and started with [`Wgc::start`]. Frames
//! are pulled one [`Step`] at a time: [`Wgc::try_next`] asks the frame pool
//! once and never blocks; where it says [`Step::Wait`], the caller waits for
//! the platform's next message and reports how the wait ended to
//! [`Wgc::on_wait`]. The decisions behind both are those of [`StreamState`],
//! which holds no platform object and can be driven by anything.
//!
//! Reading a [`Frame`] back goes by [`Frame::readback_plan`]: the caller
//! brings the frame to a staging surface, directly or through a canvas on
//! which [`letterbox`] places it, maps the surface, and has
//! [`Frame::read_pixels`] copy the rows out.
//!
//! This library contains no `unsafe` code. What needs it (creating the GPU
//! devices, pumping messages, driving Direct2D, reading the performance
//! counter) is left to the caller, who hands in plain values and handles.

pub mod capabilities;
pub mod capture;
pub mod error;
pub mod frame;
pub mod picker;
pub mod platform;
pub mod readback;
pub mod settings;
pub mod stream;
pub mod timing;

pub use crate::capabilities::{
    is_border_configurable, is_cursor_configurable, is_dirty_region_mode_configurable,
    is_include_secondary_windows_configurable, is_min_update_interval_configurable,
    is_wgc_supported, probe_answer,
};
pub use crate::capture::{SessionModel, Step, Wgc};
pub use crate::error::{ConfigError, WgcError};
pub use crate::frame::{Frame, FrameModel, FrameSize, NativeSize};
pub use crate::picker::{picker_step, PickerStep};
pub use crate::platform::PoolShape;
pub use crate::readback::{
    letterbox, mapped_span, read_rows, readback_plan, Letterbox, ReadbackPlan,
};
pub use crate::settings::{Capabilities, FrameInterpolationMode, PixelFormat, WgcSettings};
pub use crate::stream::{
    SessionPhase, StreamAction, StreamEvent, StreamState, WaitOutcome,
};
pub use crate::timing::{elapsed_since_system_boot, render_offset, uptime_nanos};
