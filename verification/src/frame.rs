//! Sizes, and the frame that a stream hands out.

use vstd::prelude::*;
use windows::Graphics::Capture::Direct3D11CaptureFrame;
use crate::error::WgcError;
use crate::platform::frame_system_relative_time;
use crate::readback::{
    image_bytes, mapping_holds, read_rows, readback_plan, readback_plan_of, row_bytes,
    ReadbackPlan,
};
use crate::settings::{FrameInterpolationMode, PixelFormat};
use crate::timing::{render_offset, spec_render_offset};

verus! {

/// A size as the platform reports it. Either number may be negative.
#[derive(Debug, Clone, Copy, PartialEq, Eq, Structural)]
pub struct NativeSize {
    pub width: i32,
    pub height: i32,
}

/// Width and height in pixels.
#[derive(Debug, Clone, Copy, PartialEq, Eq, Structural)]
pub struct FrameSize {
    pub width: u32,
    pub height: u32,
}

impl Default for FrameSize {
    fn default() -> (r: Self)
        ensures
            r == (FrameSize { width: 0, height: 0 }),
    {
        FrameSize { width: 0, height: 0 }
    }
}

impl FrameSize {
    /// One reported dimension as a pixel count: a negative number counts as zero.
    pub open spec fn clamp(dimension: i32) -> u32 {
        if dimension < 0 {
            0u32
        } else {
            dimension as u32
        }
    }

    /// The size that a reported size stands for, with negative numbers taken
    /// as zero.
    pub open spec fn of_native(size: NativeSize) -> FrameSize {
        FrameSize { width: Self::clamp(size.width), height: Self::clamp(size.height) }
    }

    /// The size that a reported size stands for.
    pub fn from_native(size: NativeSize) -> (r: FrameSize)
        ensures
            r == Self::of_native(size),
            r.width as int == if size.width < 0 { 0 } else { size.width as int },
            r.height as int == if size.height < 0 { 0 } else { size.height as int },
    {
        let width: u32 = if size.width < 0 { 0 } else { size.width as u32 };
        let height: u32 = if size.height < 0 { 0 } else { size.height as u32 };
        FrameSize { width, height }
    }
}

/// What a frame is to the contracts: the platform's frame, the size of its
/// content as reported, and the layout of its pixels.
pub struct FrameModel {
    pub native: Direct3D11CaptureFrame,
    pub size: NativeSize,
    pub pixel_format: PixelFormat,
    pub interpolation_mode: FrameInterpolationMode,
}

/// One surface taken out of the frame pool. Dropping it gives the surface
/// back to the platform.
#[derive(Debug)]
pub struct Frame {
    frame: Direct3D11CaptureFrame,
    size: NativeSize,
    pixel_format: PixelFormat,
    interpolation_mode: FrameInterpolationMode,
}

impl View for Frame {
    type V = FrameModel;

    closed spec fn view(&self) -> FrameModel {
        FrameModel {
            native: self.frame,
            size: self.size,
            pixel_format: self.pixel_format,
            interpolation_mode: self.interpolation_mode,
        }
    }
}

impl Frame {
    /// Wraps a surface whose content size was read as `content_size`, with
    /// the layout of its pixels and the way it is to be resampled.
    pub fn new(
        frame: Direct3D11CaptureFrame,
        content_size: NativeSize,
        pixel_format: PixelFormat,
        interpolation_mode: FrameInterpolationMode,
    ) -> (r: Frame)
        ensures
            r@ == (FrameModel {
                native: frame,
                size: content_size,
                pixel_format,
                interpolation_mode,
            }),
    {
        Frame { frame, size: content_size, pixel_format, interpolation_mode }
    }

    /// The size of the frame's content. It was read when the frame was taken
    /// from the pool, so this never fails.
    pub fn size(&self) -> (r: Result<FrameSize, WgcError>)
        ensures
            r == Ok::<FrameSize, WgcError>(FrameSize::of_native(self@.size)),
    {
        Ok(FrameSize::from_native(self.size))
    }

    /// The layout of the frame's pixels.
    pub fn pixel_format(&self) -> (r: PixelFormat)
        ensures
            r == self@.pixel_format,
    {
        self.pixel_format
    }

    /// How the frame is resampled when it is read back at another size.
    pub fn interpolation_mode(&self) -> (r: FrameInterpolationMode)
        ensures
            r == self@.interpolation_mode,
    {
        self.interpolation_mode
    }

    /// When the compositor rendered the frame, as a distance in nanoseconds
    /// from the moment at which the performance counter read `qpc_now`;
    /// negative for a frame rendered before that moment. `qpc_frequency` is
    /// the counter's frequency in counts per second.
    ///
    /// The frame's own timestamp is asked of the platform, which may fail.
    pub fn render_time(&self, qpc_now: i64, qpc_frequency: i64) -> (r: Result<i128, WgcError>)
        requires
            qpc_now >= 0,
            qpc_frequency > 0,
        ensures
            match r {
                Ok(offset) => exists|ticks: i64|
                    offset == #[trigger] spec_render_offset(ticks, qpc_now, qpc_frequency),
                Err(err) => err is Platform,
            },
    {
        match frame_system_relative_time(&self.frame) {
            Ok(ticks) => Ok(render_offset(ticks, qpc_now, qpc_frequency)),
            Err(e) => Err(WgcError::from_platform(&e)),
        }
    }

    /// How to bring the frame to a staging surface of `desired_size`: by a
    /// direct copy where that is the frame's own size, by a scaled and centred
    /// drawing otherwise.
    pub fn readback_plan(&self, desired_size: FrameSize) -> (r: ReadbackPlan)
        ensures
            r == readback_plan_of(FrameSize::of_native(self@.size), desired_size),
    {
        readback_plan(FrameSize::from_native(self.size), desired_size)
    }

    /// The frame's pixels at `desired_size`, as a tightly packed buffer, out
    /// of the mapped memory of the staging surface that holds them.
    ///
    /// `pitch` is the distance in bytes between the starts of two rows in
    /// `mapped`. The result is `None` exactly where `mapped` cannot hold an
    /// image of `desired_size` in the frame's layout. Otherwise the buffer has
    /// `width * height * bytes_per_pixel` bytes and each of its rows is the
    /// row of the same number in `mapped`, without what pads it.
    pub fn read_pixels(&self, desired_size: FrameSize, mapped: &[u8], pitch: usize) -> (r: Option<
        Vec<u8>,
    >)
        ensures
            r is Some <==> mapping_holds(
                mapped@.len(),
                pitch as nat,
                desired_size,
                self@.pixel_format.bytes_per_pixel,
            ),
            r matches Some(buffer) ==> {
                &&& buffer@.len() == desired_size.width * desired_size.height
                    * self@.pixel_format.bytes_per_pixel
                &&& buffer@.len() == image_bytes(desired_size, self@.pixel_format.bytes_per_pixel)
                &&& forall|i: int, j: int|
                    0 <= i < desired_size.height && 0 <= j < row_bytes(
                        desired_size.width,
                        self@.pixel_format.bytes_per_pixel,
                    ) ==> #[trigger] buffer@[i * row_bytes(
                        desired_size.width,
                        self@.pixel_format.bytes_per_pixel,
                    ) + j] == mapped@[i * pitch + j]
            },
    {
        read_rows(mapped, pitch, desired_size, self.pixel_format)
    }

    /// The platform's frame, for calls that this library does not make.
    pub fn native(&self) -> (r: &Direct3D11CaptureFrame)
        ensures
            *r == self@.native,
    {
        &self.frame
    }

    /// Gives up the wrapper and keeps the platform's frame.
    pub fn into_native(self) -> (r: Direct3D11CaptureFrame)
        ensures
            r == self@.native,
    {
        self.frame
    }
}

} // verus!
