//! What a caller chooses before a session is created, and the rule that holds
//! the choice against what the platform offers.

use vstd::prelude::*;
use core::time::Duration;
use crate::error::{ConfigError, WgcError};

verus! {

/// How a frame is resampled when it is drawn at another size.
#[derive(Debug, Clone, Copy, PartialEq, Eq, Structural)]
pub enum FrameInterpolationMode {
    /// The nearest single point; fastest, lowest quality.
    NearestNeighbor,
    /// Four points, interpolated linearly.
    Linear,
    /// A cubic kernel over sixteen samples.
    Cubic,
    /// Four linear samples within one pixel, for edges when scaling down a little.
    MultiSampleLinear,
    /// A variable-size cubic kernel that scales down first; highest quality.
    HighQualityCubic,
}

impl FrameInterpolationMode {
    /// The number Direct2D gives this mode (`D2D1_INTERPOLATION_MODE`).
    pub open spec fn spec_native_mode(self) -> i32 {
        match self {
            FrameInterpolationMode::NearestNeighbor => 0,
            FrameInterpolationMode::Linear => 1,
            FrameInterpolationMode::Cubic => 2,
            FrameInterpolationMode::MultiSampleLinear => 3,
            FrameInterpolationMode::HighQualityCubic => 5,
        }
    }

    /// The number Direct2D gives this mode.
    pub fn native_mode(self) -> (r: i32)
        ensures
            r == self.spec_native_mode(),
    {
        match self {
            FrameInterpolationMode::NearestNeighbor => 0,
            FrameInterpolationMode::Linear => 1,
            FrameInterpolationMode::Cubic => 2,
            FrameInterpolationMode::MultiSampleLinear => 3,
            FrameInterpolationMode::HighQualityCubic => 5,
        }
    }
}

impl Default for FrameInterpolationMode {
    fn default() -> (r: Self)
        ensures
            r == FrameInterpolationMode::Linear,
    {
        FrameInterpolationMode::Linear
    }
}

/// A pixel layout: the platform's number for it and the bytes one pixel takes.
#[derive(Debug, Clone, Copy, PartialEq, Eq, Structural)]
pub struct PixelFormat {
    /// The `DirectXPixelFormat` (equally `DXGI_FORMAT`) number.
    pub format: i32,
    /// The bytes that one pixel takes.
    pub bytes_per_pixel: u32,
}

impl PixelFormat {
    /// The width in bytes of the layouts that readback knows; `None` for any
    /// other number.
    pub open spec fn known_width(format: i32) -> Option<u32> {
        if format == 28 || format == 87 {
            Some(4u32)
        } else {
            None
        }
    }

    /// Whether `bytes_per_pixel` agrees with the layout, where the layout is
    /// one that readback knows.
    pub open spec fn consistent(self) -> bool {
        Self::known_width(self.format) matches Some(w) ==> self.bytes_per_pixel == w
    }

    /// A caller-supplied layout. The two numbers are taken as given.
    pub fn new(format: i32, bytes_per_pixel: u32) -> (r: Self)
        ensures
            r == (PixelFormat { format, bytes_per_pixel }),
    {
        PixelFormat { format, bytes_per_pixel }
    }

    /// Red, green, blue, alpha, eight bits each
    /// (`DirectXPixelFormat::R8G8B8A8UIntNormalized`).
    pub fn rgba8() -> (r: Self)
        ensures
            r == (PixelFormat { format: 28, bytes_per_pixel: 4 }),
            r.consistent(),
    {
        PixelFormat { format: 28, bytes_per_pixel: 4 }
    }

    /// Blue, green, red, alpha, eight bits each
    /// (`DirectXPixelFormat::B8G8R8A8UIntNormalized`).
    pub fn bgra8() -> (r: Self)
        ensures
            r == (PixelFormat { format: 87, bytes_per_pixel: 4 }),
            r.consistent(),
    {
        PixelFormat { format: 87, bytes_per_pixel: 4 }
    }

    /// The platform's number for the layout.
    pub fn format(&self) -> (r: i32)
        ensures
            r == self.format,
    {
        self.format
    }

    /// The bytes that one pixel takes.
    pub fn bytes_per_pixel(&self) -> (r: u32)
        ensures
            r == self.bytes_per_pixel,
    {
        self.bytes_per_pixel
    }

    /// Whether `bytes_per_pixel` agrees with the layout.
    pub fn is_consistent(&self) -> (r: bool)
        ensures
            r == self.consistent(),
    {
        if self.format == 28 || self.format == 87 {
            self.bytes_per_pixel == 4
        } else {
            true
        }
    }
}

/// Which optional settings the running platform lets a session configure.
#[derive(Debug, Clone, Copy, PartialEq, Eq, Structural)]
pub struct Capabilities {
    /// Cursor capture can be switched.
    pub cursor: bool,
    /// The border round the captured content can be switched.
    pub border: bool,
    /// Secondary windows can be included or left out.
    pub secondary_windows: bool,
    /// A minimum update interval can be set.
    pub min_update_interval: bool,
}

impl Capabilities {
    /// A platform that offers none of the optional settings.
    pub fn none() -> (r: Self)
        ensures
            r == (Capabilities {
                cursor: false,
                border: false,
                secondary_windows: false,
                min_update_interval: false,
            }),
    {
        Capabilities {
            cursor: false,
            border: false,
            secondary_windows: false,
            min_update_interval: false,
        }
    }

    /// A platform that offers every optional setting.
    pub fn all() -> (r: Self)
        ensures
            r == (Capabilities {
                cursor: true,
                border: true,
                secondary_windows: true,
                min_update_interval: true,
            }),
    {
        Capabilities {
            cursor: true,
            border: true,
            secondary_windows: true,
            min_update_interval: true,
        }
    }
}

/// The settings of a capture session.
///
/// An optional field may be `Some` only where the platform can configure it;
/// `None` leaves the platform's own default in place.
#[derive(Debug, Clone, Copy)]
pub struct WgcSettings {
    /// The layout of captured pixels.
    pub pixel_format: PixelFormat,
    /// How many surfaces the frame pool holds; at least one.
    pub frame_queue_length: i32,
    /// Whether the cursor is captured.
    pub capture_cursor: Option<bool>,
    /// Whether a border is drawn round the captured content.
    pub display_border: Option<bool>,
    /// Whether secondary windows are captured with the main one.
    pub include_secondary_windows: Option<bool>,
    /// The shortest time between two frames.
    pub min_update_interval: Option<Duration>,
    /// How a frame is resampled when it is read back at another size.
    pub frame_interpolation_mode: FrameInterpolationMode,
}

impl Default for WgcSettings {
    fn default() -> (r: Self)
        ensures
            r.pixel_format == (PixelFormat { format: 28, bytes_per_pixel: 4 }),
            r.frame_queue_length == 1,
            r.capture_cursor is None,
            r.display_border is None,
            r.include_secondary_windows is None,
            r.min_update_interval is None,
            r.frame_interpolation_mode == FrameInterpolationMode::Linear,
    {
        WgcSettings {
            pixel_format: PixelFormat::rgba8(),
            frame_queue_length: 1,
            capture_cursor: None,
            display_border: None,
            include_secondary_windows: None,
            min_update_interval: None,
            frame_interpolation_mode: FrameInterpolationMode::Linear,
        }
    }
}

impl WgcSettings {
    /// The first rule that these settings break on a platform with the given
    /// capabilities, or `None` where they break none. The queue length is
    /// looked at first, the optional settings in the order in which a session
    /// applies them.
    pub open spec fn config_error(self, capabilities: Capabilities) -> Option<ConfigError> {
        if self.frame_queue_length < 1 {
            Some(ConfigError::FrameQueueLength)
        } else if self.capture_cursor is Some && !capabilities.cursor {
            Some(ConfigError::CaptureCursor)
        } else if self.include_secondary_windows is Some && !capabilities.secondary_windows {
            Some(ConfigError::IncludeSecondaryWindows)
        } else if self.display_border is Some && !capabilities.border {
            Some(ConfigError::DisplayBorder)
        } else if self.min_update_interval is Some && !capabilities.min_update_interval {
            Some(ConfigError::MinUpdateInterval)
        } else {
            None
        }
    }

    /// Holds the settings against the platform's capabilities: `Ok` where
    /// they break no rule, otherwise the first rule broken as a configuration
    /// error.
    pub fn validate(&self, capabilities: &Capabilities) -> (r: Result<(), WgcError>)
        ensures
            r == match self.config_error(*capabilities) {
                Some(e) => Err::<(), WgcError>(WgcError::Config(e)),
                None => Ok::<(), WgcError>(()),
            },
    {
        if self.frame_queue_length < 1 {
            Err(WgcError::Config(ConfigError::FrameQueueLength))
        } else if self.capture_cursor.is_some() && !capabilities.cursor {
            Err(WgcError::Config(ConfigError::CaptureCursor))
        } else if self.include_secondary_windows.is_some() && !capabilities.secondary_windows {
            Err(WgcError::Config(ConfigError::IncludeSecondaryWindows))
        } else if self.display_border.is_some() && !capabilities.border {
            Err(WgcError::Config(ConfigError::DisplayBorder))
        } else if self.min_update_interval.is_some() && !capabilities.min_update_interval {
            Err(WgcError::Config(ConfigError::MinUpdateInterval))
        } else {
            Ok(())
        }
    }
}

/// A queue length below one is refused on every platform, whatever else is
/// set. A queue length of at least one with no optional setting is accepted
/// on every platform.
pub proof fn lemma_queue_length_decides(settings: WgcSettings, capabilities: Capabilities)
    ensures
        settings.frame_queue_length < 1 ==> settings.config_error(capabilities) == Some(
            ConfigError::FrameQueueLength,
        ),
        settings.frame_queue_length >= 1 && settings.capture_cursor is None
            && settings.display_border is None && settings.include_secondary_windows is None
            && settings.min_update_interval is None ==> settings.config_error(capabilities)
            is None,
{
}

/// An optional setting that the platform does not offer is refused, and
/// settings are accepted exactly where the queue length is at least one and
/// every optional setting in use is offered.
pub proof fn lemma_unsupported_option_is_refused(settings: WgcSettings, capabilities: Capabilities)
    ensures
        settings.config_error(capabilities) is None <==> {
            &&& settings.frame_queue_length >= 1
            &&& settings.capture_cursor is Some ==> capabilities.cursor
            &&& settings.include_secondary_windows is Some ==> capabilities.secondary_windows
            &&& settings.display_border is Some ==> capabilities.border
            &&& settings.min_update_interval is Some ==> capabilities.min_update_interval
        },
{
}

} // verus!
