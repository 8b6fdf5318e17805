use wgc::{
    letterbox, mapped_span, read_rows, readback_plan, FrameSize, Letterbox, NativeSize,
    PixelFormat, ReadbackPlan,
};

fn size(width: u32, height: u32) -> FrameSize {
    FrameSize { width, height }
}

#[test]
fn frame_size_default_is_empty() {
    assert_eq!(FrameSize::default(), size(0, 0));
}

#[test]
fn frame_size_keeps_positive_dimensions() {
    assert_eq!(FrameSize::from_native(NativeSize { width: 1920, height: 1080 }), size(1920, 1080));
    assert_eq!(
        FrameSize::from_native(NativeSize { width: i32::MAX, height: 1 }),
        size(2147483647, 1)
    );
}

#[test]
fn frame_size_clamps_negative_dimensions_to_zero() {
    assert_eq!(FrameSize::from_native(NativeSize { width: -1, height: 1080 }), size(0, 1080));
    assert_eq!(FrameSize::from_native(NativeSize { width: 3, height: -7 }), size(3, 0));
    assert_eq!(
        FrameSize::from_native(NativeSize { width: i32::MIN, height: i32::MIN }),
        size(0, 0)
    );
    assert_eq!(FrameSize::from_native(NativeSize { width: 0, height: 0 }), size(0, 0));
}

#[test]
fn own_size_is_read_directly() {
    assert_eq!(readback_plan(size(1920, 1080), size(1920, 1080)), ReadbackPlan::Direct);
    assert_eq!(readback_plan(size(0, 0), size(0, 0)), ReadbackPlan::Direct);
}

#[test]
fn other_size_is_composited() {
    assert_eq!(
        readback_plan(size(1920, 1080), size(960, 540)),
        ReadbackPlan::Composite(letterbox(size(1920, 1080), size(960, 540)))
    );
    assert_eq!(readback_plan(size(0, 10), size(5, 5)), ReadbackPlan::Composite(None));
}

#[test]
fn wide_frame_on_taller_canvas_gets_bars_above_and_below() {
    let place = letterbox(size(1920, 1080), size(1280, 1024)).unwrap();
    assert_eq!(
        place,
        Letterbox {
            unit: 1920,
            width: 1280 * 1920,
            height: 1080 * 1280,
            margin_x: 0,
            margin_y: 1024 * 1920 - 1080 * 1280,
        }
    );
    assert_eq!(place.width / place.unit, 1280);
    assert_eq!(place.height / place.unit, 720);
    assert_eq!(place.margin_y / place.unit, 304);
    assert_eq!(place.margin_y / (2 * place.unit), 152);
}

#[test]
fn tall_frame_on_wider_canvas_gets_bars_left_and_right() {
    let place = letterbox(size(1080, 1920), size(1024, 1280)).unwrap();
    assert_eq!(
        place,
        Letterbox {
            unit: 1920,
            width: 1080 * 1280,
            height: 1280 * 1920,
            margin_x: 1024 * 1920 - 1080 * 1280,
            margin_y: 0,
        }
    );
    assert_eq!(place.width / place.unit, 720);
    assert_eq!(place.height / place.unit, 1280);
    assert_eq!(place.margin_x / (2 * place.unit), 152);
}

#[test]
fn same_proportions_fill_the_canvas() {
    let place = letterbox(size(1920, 1080), size(960, 540)).unwrap();
    assert_eq!(place.margin_x, 0);
    assert_eq!(place.margin_y, 0);
    assert_eq!(place.width, 960 * place.unit);
    assert_eq!(place.height, 540 * place.unit);
}

#[test]
fn letterbox_is_centred_and_keeps_proportions() {
    let sources = [size(1, 1), size(3, 2), size(640, 480), size(1920, 1080), size(7, 4000)];
    let targets = [size(1, 1), size(100, 100), size(1280, 1024), size(33, 900), size(0, 5)];
    for source in sources {
        for target in targets {
            let place = letterbox(source, target).unwrap();
            assert!(place.unit > 0);
            assert_eq!(place.width + place.margin_x, target.width as u64 * place.unit);
            assert_eq!(place.height + place.margin_y, target.height as u64 * place.unit);
            assert_eq!(
                place.width as u128 * source.height as u128,
                place.height as u128 * source.width as u128
            );
            assert!(place.margin_x == 0 || place.margin_y == 0);
        }
    }
}

#[test]
fn frame_without_area_has_no_place() {
    assert_eq!(letterbox(size(0, 1080), size(100, 100)), None);
    assert_eq!(letterbox(size(1920, 0), size(100, 100)), None);
    assert_eq!(letterbox(size(0, 0), size(0, 0)), None);
}

#[test]
fn largest_sizes_do_not_overflow() {
    let place = letterbox(size(u32::MAX, 1), size(u32::MAX, u32::MAX)).unwrap();
    assert_eq!(place.unit, u32::MAX as u64);
    assert_eq!(place.width, u32::MAX as u64 * u32::MAX as u64);
    assert_eq!(place.height, u32::MAX as u64);
    assert_eq!(place.margin_x, 0);
    assert_eq!(place.margin_y, u32::MAX as u64 * u32::MAX as u64 - u32::MAX as u64);
}

#[test]
fn rows_are_copied_without_their_padding() {
    // 2 x 3 pixels of 4 bytes, rows 12 bytes apart: 4 bytes of padding per row.
    let mut mapped = Vec::new();
    for row in 0u8..3 {
        for byte in 0u8..8 {
            mapped.push(row * 16 + byte);
        }
        mapped.extend_from_slice(&[0xEE; 4]);
    }
    let buffer = read_rows(&mapped, 12, size(2, 3), PixelFormat::rgba8()).unwrap();
    assert_eq!(
        buffer,
        vec![
            0, 1, 2, 3, 4, 5, 6, 7, 16, 17, 18, 19, 20, 21, 22, 23, 32, 33, 34, 35, 36, 37, 38,
            39,
        ]
    );
}

#[test]
fn readback_at_own_size_has_four_bytes_per_rgba_pixel() {
    let width: u32 = 17;
    let height: u32 = 9;
    let pitch: usize = 80;
    let mapped: Vec<u8> = (0..pitch * height as usize).map(|i| (i % 251) as u8).collect();
    let buffer = read_rows(&mapped, pitch, size(width, height), PixelFormat::rgba8()).unwrap();
    assert_eq!(buffer.len(), (width * height * 4) as usize);
    let row = (width * 4) as usize;
    for i in 0..height as usize {
        assert_eq!(&buffer[i * row..(i + 1) * row], &mapped[i * pitch..i * pitch + row]);
    }
}

#[test]
fn tightly_packed_rows_are_copied_whole() {
    let mapped: Vec<u8> = (0u8..24).collect();
    assert_eq!(read_rows(&mapped, 8, size(2, 3), PixelFormat::bgra8()), Some(mapped.clone()));
}

#[test]
fn last_row_needs_no_padding_behind_it() {
    // rows start at 0 and 10; the second ends at byte 18 of 18.
    let mapped: Vec<u8> = (0u8..18).collect();
    let buffer = read_rows(&mapped, 10, size(2, 2), PixelFormat::rgba8()).unwrap();
    assert_eq!(buffer, vec![0, 1, 2, 3, 4, 5, 6, 7, 10, 11, 12, 13, 14, 15, 16, 17]);
}

#[test]
fn memory_that_is_too_short_is_refused() {
    let mapped: Vec<u8> = (0u8..17).collect();
    assert_eq!(read_rows(&mapped, 10, size(2, 2), PixelFormat::rgba8()), None);
    assert_eq!(read_rows(&mapped[..7], 8, size(2, 1), PixelFormat::rgba8()), None);
    assert_eq!(read_rows(&[], 8, size(2, 1), PixelFormat::rgba8()), None);
}

#[test]
fn pitch_below_the_row_width_is_refused() {
    let mapped = vec![0u8; 64];
    assert_eq!(read_rows(&mapped, 7, size(2, 2), PixelFormat::rgba8()), None);
    assert_eq!(read_rows(&mapped, 0, size(2, 2), PixelFormat::rgba8()), None);
}

#[test]
fn image_without_bytes_reads_as_empty() {
    assert_eq!(read_rows(&[], 0, size(0, 0), PixelFormat::rgba8()), Some(Vec::new()));
    assert_eq!(read_rows(&[], 0, size(0, 5), PixelFormat::rgba8()), Some(Vec::new()));
    assert_eq!(read_rows(&[], 0, size(5, 0), PixelFormat::rgba8()), Some(Vec::new()));
    assert_eq!(read_rows(&[1, 2, 3], 1, size(5, 5), PixelFormat::new(1, 0)), Some(Vec::new()));
}

#[test]
fn custom_layout_uses_its_own_width() {
    let mapped: Vec<u8> = (0u8..32).collect();
    let buffer = read_rows(&mapped, 16, size(1, 2), PixelFormat::new(10, 8)).unwrap();
    assert_eq!(buffer, vec![0, 1, 2, 3, 4, 5, 6, 7, 16, 17, 18, 19, 20, 21, 22, 23]);
}

#[test]
fn sizes_beyond_memory_are_refused() {
    let mapped = vec![0u8; 16];
    assert_eq!(read_rows(&mapped, 16, size(u32::MAX, u32::MAX), PixelFormat::rgba8()), None);
    assert_eq!(read_rows(&mapped, usize::MAX, size(1, 2), PixelFormat::rgba8()), None);
    assert_eq!(read_rows(&mapped, 4, size(1, u32::MAX), PixelFormat::rgba8()), None);
}

#[test]
fn mapped_span_counts_full_pitch_for_all_rows_but_the_last() {
    assert_eq!(mapped_span(12, size(2, 3), PixelFormat::rgba8()), Some(2 * 12 + 8));
    assert_eq!(mapped_span(8, size(2, 3), PixelFormat::rgba8()), Some(24));
    assert_eq!(mapped_span(256, size(17, 1), PixelFormat::rgba8()), Some(68));
    assert_eq!(mapped_span(7680, size(1920, 1080), PixelFormat::bgra8()), Some(1080 * 7680));
}

#[test]
fn mapped_span_of_an_image_without_bytes_is_nothing() {
    assert_eq!(mapped_span(0, size(0, 9), PixelFormat::rgba8()), Some(0));
    assert_eq!(mapped_span(64, size(9, 0), PixelFormat::rgba8()), Some(0));
    assert_eq!(mapped_span(3, size(9, 9), PixelFormat::new(1, 0)), Some(0));
}

#[test]
fn mapped_span_refuses_overlapping_rows_and_spans_beyond_memory() {
    assert_eq!(mapped_span(7, size(2, 3), PixelFormat::rgba8()), None);
    assert_eq!(mapped_span(0, size(1, 1), PixelFormat::rgba8()), None);
    assert_eq!(mapped_span(usize::MAX, size(1, 3), PixelFormat::rgba8()), None);
}

#[test]
fn memory_of_the_mapped_span_holds_the_image_and_one_byte_less_does_not() {
    let format = PixelFormat::rgba8();
    let cases = [(12usize, size(2, 3)), (8, size(2, 3)), (100, size(5, 1)), (33, size(8, 7))];
    for (pitch, image) in cases {
        let span = mapped_span(pitch, image, format).unwrap();
        let mapped = vec![7u8; span];
        let buffer = read_rows(&mapped, pitch, image, format).unwrap();
        assert_eq!(buffer.len(), (image.width * image.height * 4) as usize);
        assert_eq!(read_rows(&mapped[..span - 1], pitch, image, format), None);
    }
}
