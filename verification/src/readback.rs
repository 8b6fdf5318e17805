//! The arithmetic of reading a frame back: where the frame goes on a canvas
//! of another size, and how rows leave mapped memory.

use vstd::prelude::*;
use vstd::slice::slice_subrange;
use crate::frame::FrameSize;
use crate::settings::PixelFormat;

verus! {

/// Where a frame is drawn on a canvas of another shape, scaled by one factor
/// in both directions and centred.
///
/// All four extents are counted in parts of a pixel: one pixel is `unit`
/// parts. The content is `width` by `height` parts. What the canvas has left
/// over is `margin_x` parts across and `margin_y` parts down, and half of each
/// lies on either side of the content.
#[derive(Debug, Clone, Copy, PartialEq, Eq, Structural)]
pub struct Letterbox {
    pub unit: u64,
    pub width: u64,
    pub height: u64,
    pub margin_x: u64,
    pub margin_y: u64,
}

/// How a frame gets to the staging surface.
#[derive(Debug, Clone, Copy, PartialEq, Eq, Structural)]
pub enum ReadbackPlan {
    /// The frame's own surface is copied as it is.
    Direct,
    /// A canvas of the desired size is cleared to the fill colour, the frame
    /// is drawn into it at this place, and the canvas is copied. A frame
    /// without area has no place and leaves the canvas cleared.
    Composite(Option<Letterbox>),
}

/// The bytes in one row of `width` pixels.
pub open spec fn row_bytes(width: u32, bytes_per_pixel: u32) -> nat {
    (width as nat) * (bytes_per_pixel as nat)
}

/// The bytes in a tightly packed image of the given size.
pub open spec fn image_bytes(size: FrameSize, bytes_per_pixel: u32) -> nat {
    (size.height as nat) * row_bytes(size.width, bytes_per_pixel)
}

/// Whether mapped memory of `mapped_len` bytes, whose rows start `pitch` bytes
/// apart, holds every row of an image of the given size. An image without
/// bytes needs nothing. Any other needs rows that do not overlap and a last
/// row that ends inside the memory.
pub open spec fn mapping_holds(
    mapped_len: nat,
    pitch: nat,
    size: FrameSize,
    bytes_per_pixel: u32,
) -> bool {
    let row = row_bytes(size.width, bytes_per_pixel);
    row == 0 || size.height == 0 || (pitch >= row && (size.height - 1) * pitch + row <= mapped_len)
}

/// The bytes from the start of the first row to the end of the last in mapped
/// memory whose rows start `pitch` bytes apart: nothing for an image without
/// bytes, otherwise all rows but the last at full pitch and the last at its
/// own width.
pub open spec fn mapped_span_of(pitch: nat, size: FrameSize, bytes_per_pixel: u32) -> nat {
    let row = row_bytes(size.width, bytes_per_pixel);
    if row == 0 || size.height == 0 {
        0
    } else {
        ((size.height - 1) * pitch + row) as nat
    }
}

/// The place of a frame of size `source` on a canvas of size `target`.
///
/// The scale is the smaller of the two ratios, target to source, of the widths
/// and of the heights. Where the widths decide, the content is as wide as the
/// canvas and one pixel is `source.width` parts; where the heights decide, it
/// is as high as the canvas and one pixel is `source.height` parts. A source
/// without area has no place.
pub open spec fn letterbox_of(source: FrameSize, target: FrameSize) -> Option<Letterbox> {
    if source.width == 0 || source.height == 0 {
        None
    } else if target.width * source.height <= target.height * source.width {
        Some(
            Letterbox {
                unit: source.width as u64,
                width: (target.width * source.width) as u64,
                height: (source.height * target.width) as u64,
                margin_x: 0,
                margin_y: (target.height * source.width - source.height * target.width) as u64,
            },
        )
    } else {
        Some(
            Letterbox {
                unit: source.height as u64,
                width: (source.width * target.height) as u64,
                height: (target.height * source.height) as u64,
                margin_x: (target.width * source.height - source.width * target.height) as u64,
                margin_y: 0,
            },
        )
    }
}

/// The plan for reading a frame of size `frame_size` at size `desired_size`.
pub open spec fn readback_plan_of(frame_size: FrameSize, desired_size: FrameSize) -> ReadbackPlan {
    if frame_size == desired_size {
        ReadbackPlan::Direct
    } else {
        ReadbackPlan::Composite(letterbox_of(frame_size, desired_size))
    }
}

/// The product of two pixel counts or byte widths. It always fits.
fn product(a: u32, b: u32) -> (r: u64)
    ensures
        r == a * b,
{
    assert(a * b <= 0xFFFF_FFFF * 0xFFFF_FFFF) by (nonlinear_arith)
        requires
            0 <= a <= 0xFFFF_FFFF,
            0 <= b <= 0xFFFF_FFFF,
    ;
    (a as u64) * (b as u64)
}

/// The place of a frame of size `source` on a canvas of size `target`.
pub fn letterbox(source: FrameSize, target: FrameSize) -> (r: Option<Letterbox>)
    ensures
        r == letterbox_of(source, target),
{
    if source.width == 0 || source.height == 0 {
        return None;
    }
    let across: u64 = product(target.width, source.height);
    let down: u64 = product(target.height, source.width);
    if across <= down {
        Some(
            Letterbox {
                unit: source.width as u64,
                width: product(target.width, source.width),
                height: product(source.height, target.width),
                margin_x: 0,
                margin_y: down - across,
            },
        )
    } else {
        Some(
            Letterbox {
                unit: source.height as u64,
                width: product(source.width, target.height),
                height: product(target.height, source.height),
                margin_x: across - down,
                margin_y: 0,
            },
        )
    }
}

/// The plan for reading a frame of size `frame_size` at size `desired_size`:
/// a direct copy where the sizes agree, a scaled and centred drawing
/// otherwise.
pub fn readback_plan(frame_size: FrameSize, desired_size: FrameSize) -> (r: ReadbackPlan)
    ensures
        r == readback_plan_of(frame_size, desired_size),
{
    if frame_size.width == desired_size.width && frame_size.height == desired_size.height {
        ReadbackPlan::Direct
    } else {
        ReadbackPlan::Composite(letterbox(frame_size, desired_size))
    }
}

/// How many bytes of mapped memory an image of the given size and layout
/// spans when its rows start `pitch` bytes apart.
///
/// The result is `None` where the rows would overlap or the span is more than
/// memory can address. Memory of the length given holds the image, and none
/// shorter does.
pub fn mapped_span(pitch: usize, size: FrameSize, format: PixelFormat) -> (r: Option<usize>)
    ensures
        match r {
            Some(span) => span == mapped_span_of(pitch as nat, size, format.bytes_per_pixel)
                && mapping_holds(span as nat, pitch as nat, size, format.bytes_per_pixel),
            None => forall|len: usize|
                !#[trigger] mapping_holds(len as nat, pitch as nat, size, format.bytes_per_pixel),
        },
{
    let wide: u64 = product(size.width, format.bytes_per_pixel);
    if wide == 0 || size.height == 0 {
        return Some(0);
    }
    let above: u128 = (size.height - 1) as u128;
    assert(above * pitch <= 0xFFFF_FFFF * 0xFFFF_FFFF_FFFF_FFFF) by (nonlinear_arith)
        requires
            0 <= above <= 0xFFFF_FFFF,
            0 <= pitch <= 0xFFFF_FFFF_FFFF_FFFF,
    ;
    let span: u128 = above * (pitch as u128) + (wide as u128);
    if (pitch as u128) < (wide as u128) || span > usize::MAX as u128 {
        return None;
    }
    Some(span as usize)
}

/// Copies the rows of an image out of mapped memory into a tightly packed
/// buffer.
///
/// `mapped` is the memory of a staging surface of the given size and layout,
/// and `pitch` the distance in bytes from one row's start to the next. The
/// result is `None` exactly where the memory cannot hold the image. Otherwise
/// the buffer has `width * height * bytes_per_pixel` bytes, and byte `j` of
/// its row `i` is byte `j` of row `i` of the mapped memory; what lies between
/// the rows there is left out.
pub fn read_rows(mapped: &[u8], pitch: usize, size: FrameSize, format: PixelFormat) -> (r: Option<
    Vec<u8>,
>)
    ensures
        r is Some <==> mapping_holds(mapped@.len(), pitch as nat, size, format.bytes_per_pixel),
        r matches Some(buffer) ==> {
            &&& buffer@.len() == image_bytes(size, format.bytes_per_pixel)
            &&& buffer@.len() == size.width * size.height * format.bytes_per_pixel
            &&& forall|i: int, j: int|
                0 <= i < size.height && 0 <= j < row_bytes(size.width, format.bytes_per_pixel)
                    ==> #[trigger] buffer@[i * row_bytes(size.width, format.bytes_per_pixel) + j]
                    == mapped@[i * pitch + j]
        },
{
    let wide: u64 = product(size.width, format.bytes_per_pixel);
    let ghost row_spec = row_bytes(size.width, format.bytes_per_pixel);
    assert(wide == row_spec);
    if wide == 0 || size.height == 0 {
        assert(image_bytes(size, format.bytes_per_pixel) == 0) by (nonlinear_arith)
            requires
                row_bytes(size.width, format.bytes_per_pixel) == 0 || size.height == 0,
                image_bytes(size, format.bytes_per_pixel) == (size.height as nat) * row_bytes(
                    size.width,
                    format.bytes_per_pixel,
                ),
        ;
        assert(size.width * size.height * format.bytes_per_pixel == 0) by (nonlinear_arith)
            requires
                (size.width as nat) * (format.bytes_per_pixel as nat) == 0 || size.height == 0,
        ;
        return Some(Vec::new());
    }
    let len: usize = mapped.len();
    if wide > len as u64 {
        assert((size.height - 1) * pitch >= 0) by (nonlinear_arith)
            requires
                size.height >= 1,
                pitch >= 0,
        ;
        return None;
    }
    let row: usize = wide as usize;
    if pitch < row {
        return None;
    }
    let rows: usize = size.height as usize;
    let spare: usize = (len - row) / pitch;
    assert((rows - 1) <= spare <==> (rows - 1) * pitch <= len - row) by (nonlinear_arith)
        requires
            pitch > 0,
            rows >= 1,
            len >= row,
            spare == (len - row) / (pitch as int),
    ;
    if rows - 1 > spare {
        return None;
    }
    assert(rows * row <= (rows - 1) * pitch + row) by (nonlinear_arith)
        requires
            rows >= 1,
            pitch >= row,
            row >= 0,
    ;
    assert(size.width * size.height * format.bytes_per_pixel == rows * row) by (nonlinear_arith)
        requires
            rows == size.height,
            row == (size.width as nat) * (format.bytes_per_pixel as nat),
    ;
    let mut buffer: Vec<u8> = Vec::with_capacity(rows * row);
    let mut i: usize = 0;
    while i < rows
        invariant
            i <= rows,
            rows >= 1,
            row >= 1,
            pitch >= row,
            (rows - 1) * pitch + row <= len,
            len == mapped@.len(),
            buffer@.len() == i * row,
            forall|a: int, b: int|
                0 <= a < i && 0 <= b < row ==> #[trigger] buffer@[a * row + b] == mapped@[a * pitch
                    + b],
        decreases rows - i,
    {
        assert(i * pitch + row <= (rows - 1) * pitch + row) by (nonlinear_arith)
            requires
                i <= rows - 1,
                pitch >= 0,
        ;
        let start: usize = i * pitch;
        let chunk = slice_subrange(mapped, start, start + row);
        let ghost before = buffer@;
        buffer.extend_from_slice(chunk);
        assert((i + 1) * row == i * row + row) by (nonlinear_arith);
        assert forall|a: int, b: int| 0 <= a < i + 1 && 0 <= b < row implies #[trigger] buffer@[a
            * row + b] == mapped@[a * pitch + b] by {
            if a < i {
                assert(a * row + b < i * row) by (nonlinear_arith)
                    requires
                        0 <= a < i,
                        0 <= b < row,
                ;
                assert(buffer@[a * row + b] == before[a * row + b]);
            } else {
                assert(a == i);
                assert(chunk@[b] == mapped@[start + b]);
                assert(buffer@[i * row + b] == chunk@[b]);
            }
        }
        i = i + 1;
    }
    proof {
        assert(image_bytes(size, format.bytes_per_pixel) == rows * row) by (nonlinear_arith)
            requires
                rows == size.height,
                row == row_bytes(size.width, format.bytes_per_pixel),
                image_bytes(size, format.bytes_per_pixel) == (size.height as nat) * row_bytes(
                    size.width,
                    format.bytes_per_pixel,
                ),
        ;
    }
    Some(buffer)
}

/// A frame with area has a place on every canvas, and the place is a centred
/// fit: content and margins fill the canvas in both directions, the content
/// keeps the frame's proportions, and it touches the canvas's edge in at
/// least one direction, so no larger scale would fit.
pub proof fn lemma_letterbox_is_centred_fit(source: FrameSize, target: FrameSize)
    requires
        source.width > 0,
        source.height > 0,
    ensures
        letterbox_of(source, target) matches Some(place) && {
            &&& place.unit > 0
            &&& place.width + place.margin_x == target.width * place.unit
            &&& place.height + place.margin_y == target.height * place.unit
            &&& place.width * source.height == place.height * source.width
            &&& (place.margin_x == 0 || place.margin_y == 0)
        },
{
    let sw = source.width as int;
    let sh = source.height as int;
    let tw = target.width as int;
    let th = target.height as int;
    assert(0 <= tw * sw <= 0xFFFF_FFFF * 0xFFFF_FFFF && 0 <= sh * tw <= 0xFFFF_FFFF * 0xFFFF_FFFF
        && 0 <= th * sw <= 0xFFFF_FFFF * 0xFFFF_FFFF && 0 <= th * sh <= 0xFFFF_FFFF * 0xFFFF_FFFF
        && 0 <= tw * sh <= 0xFFFF_FFFF * 0xFFFF_FFFF && 0 <= sw * th <= 0xFFFF_FFFF * 0xFFFF_FFFF)
        by (nonlinear_arith)
        requires
            0 <= sw <= 0xFFFF_FFFF,
            0 <= sh <= 0xFFFF_FFFF,
            0 <= tw <= 0xFFFF_FFFF,
            0 <= th <= 0xFFFF_FFFF,
    ;
    assert((tw * sw) * sh == (sh * tw) * sw && (sw * th) * sh == (th * sh) * sw && sw * th == th
        * sw && tw * sh == sh * tw) by (nonlinear_arith);
}

/// Reading a frame at its own size is a direct copy, and at any other size a
/// drawing onto a canvas.
pub proof fn lemma_own_size_reads_directly(frame_size: FrameSize, desired_size: FrameSize)
    ensures
        readback_plan_of(frame_size, desired_size) is Direct <==> frame_size == desired_size,
{
}

} // verus!
