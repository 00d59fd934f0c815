use doom_snapshot::frame::{count_distinct_colors, frame_rgb, DOOM_FRAME_H, DOOM_FRAME_W};
use doom_snapshot::png_image::frame_to_png;
use doom_snapshot::ppm::frame_to_ppm;
use doom_snapshot::snapshot::{capture_doom_frame, SnapshotError};

fn decode_png(bytes: &[u8]) -> (u32, u32, Vec<u8>) {
    let decoder = png::Decoder::new(std::io::Cursor::new(bytes));
    let mut reader = decoder.read_info().expect("png header");
    let mut buf = vec![0; reader.output_buffer_size().expect("size")];
    let info = reader.next_frame(&mut buf).expect("png frame");
    assert_eq!(info.color_type, png::ColorType::Rgb);
    assert_eq!(info.bit_depth, png::BitDepth::Eight);
    buf.truncate(info.buffer_size());
    (info.width, info.height, buf)
}

/// A 640x400 frame whose pixel `i` has a colour that cycles through `colors` values.
fn doom_sized_frame(colors: u32, alpha: u8) -> Vec<u8> {
    let n = (DOOM_FRAME_W * DOOM_FRAME_H) as usize;
    let mut frame = Vec::with_capacity(n * 4);
    for i in 0..n {
        let c = (i as u32 / 7) % colors;
        frame.extend_from_slice(&[(c * 3) as u8, (c * 5 % 256) as u8, (c / 2) as u8, alpha]);
    }
    frame
}

#[test]
fn rgb_drops_alpha_and_swaps_to_rgb() {
    let frame = [10, 20, 30, 255, 1, 2, 3, 0];
    assert_eq!(frame_rgb(&frame), vec![30, 20, 10, 3, 2, 1]);
}

#[test]
fn rgb_ignores_a_trailing_partial_pixel() {
    let frame = [10, 20, 30, 255, 1, 2];
    assert_eq!(frame_rgb(&frame), vec![30, 20, 10]);
    assert_eq!(frame_rgb(&[]), Vec::<u8>::new());
}

#[test]
fn ppm_header_and_body() {
    let frame = [10, 20, 30, 255, 1, 2, 3, 0];
    let mut expected = b"P6\n2 1\n255\n".to_vec();
    expected.extend_from_slice(&[30, 20, 10, 3, 2, 1]);
    assert_eq!(frame_to_ppm(&frame, 2, 1), expected);
}

#[test]
fn ppm_header_writes_decimal_dimensions() {
    let ppm = frame_to_ppm(&[], 640, 400);
    assert_eq!(ppm, b"P6\n640 400\n255\n".to_vec());
    let ppm = frame_to_ppm(&[], 0, 4294967295);
    assert_eq!(ppm, b"P6\n0 4294967295\n255\n".to_vec());
    let ppm = frame_to_ppm(&[], 10, 9);
    assert_eq!(ppm, b"P6\n10 9\n255\n".to_vec());
}

#[test]
fn distinct_colors_ignore_alpha() {
    let frame = [1, 2, 3, 0, 1, 2, 3, 255, 3, 2, 1, 0, 1, 2, 4, 0];
    assert_eq!(count_distinct_colors(&frame), 3);
    assert_eq!(count_distinct_colors(&frame[..8]), 1);
    assert_eq!(count_distinct_colors(&[]), 0);
    assert_eq!(count_distinct_colors(&frame[..7]), 1);
}

#[test]
fn distinct_colors_of_a_cycling_frame() {
    assert_eq!(count_distinct_colors(&doom_sized_frame(200, 0)), 200);
}

#[test]
fn png_decodes_to_the_ppm_pixels() {
    let frame = [10, 20, 30, 255, 1, 2, 3, 0, 200, 100, 50, 7, 0, 0, 0, 0];
    let png = frame_to_png(&frame, 2, 2).expect("png");
    assert_eq!(&png[..8], &[137, 80, 78, 71, 13, 10, 26, 10]);
    let (w, h, rgb) = decode_png(&png);
    assert_eq!((w, h), (2, 2));
    assert_eq!(rgb, vec![30, 20, 10, 3, 2, 1, 50, 100, 200, 0, 0, 0]);
}

#[test]
fn png_depends_on_the_pixels() {
    let a = frame_to_png(&[1, 2, 3, 0], 1, 1).expect("png");
    let b = frame_to_png(&[1, 2, 4, 0], 1, 1).expect("png");
    assert_ne!(a, b);
    assert_ne!(a, vec![3, 2, 1]);
}

#[test]
fn png_is_byte_stable() {
    let frame = doom_sized_frame(120, 0);
    let a = frame_to_png(&frame, DOOM_FRAME_W, DOOM_FRAME_H).expect("png");
    let b = frame_to_png(&frame, DOOM_FRAME_W, DOOM_FRAME_H).expect("png");
    assert_eq!(a, b);
}

#[test]
fn png_refuses_a_size_mismatch() {
    assert_eq!(frame_to_png(&[1, 2, 3, 0], 2, 1), Err(SnapshotError::PngEncoding));
    assert_eq!(frame_to_png(&[1, 2, 3, 0, 5, 6, 7, 8], 1, 1), Err(SnapshotError::PngEncoding));
}

#[test]
fn png_refuses_zero_dimensions() {
    assert_eq!(frame_to_png(&[], 0, 1), Err(SnapshotError::PngEncoding));
    assert_eq!(frame_to_png(&[], 1, 0), Err(SnapshotError::PngEncoding));
}

#[test]
fn capture_rejects_unexpected_dimensions() {
    let frame = doom_sized_frame(200, 0);
    assert_eq!(
        capture_doom_frame(&frame, 320, 200),
        Err(SnapshotError::UnexpectedFrameSize { width: 320, height: 200 })
    );
    assert_eq!(
        capture_doom_frame(&frame, 640, 401),
        Err(SnapshotError::UnexpectedFrameSize { width: 640, height: 401 })
    );
}

#[test]
fn capture_rejects_a_blank_frame() {
    let frame = vec![0u8; (DOOM_FRAME_W * DOOM_FRAME_H * 4) as usize];
    assert_eq!(
        capture_doom_frame(&frame, DOOM_FRAME_W, DOOM_FRAME_H),
        Err(SnapshotError::DegenerateFrame { distinct: 1 })
    );
}

#[test]
fn capture_rejects_exactly_fifty_colors() {
    let frame = doom_sized_frame(50, 0);
    assert_eq!(
        capture_doom_frame(&frame, DOOM_FRAME_W, DOOM_FRAME_H),
        Err(SnapshotError::DegenerateFrame { distinct: 50 })
    );
}

#[test]
fn capture_accepts_fifty_one_colors() {
    let frame = doom_sized_frame(51, 0);
    assert!(capture_doom_frame(&frame, DOOM_FRAME_W, DOOM_FRAME_H).is_ok());
}

#[test]
fn capture_reports_a_short_frame_as_a_png_failure() {
    let mut frame = Vec::new();
    for c in 0..60u8 {
        frame.extend_from_slice(&[c, 0, 0, 0]);
    }
    assert_eq!(
        capture_doom_frame(&frame, DOOM_FRAME_W, DOOM_FRAME_H),
        Err(SnapshotError::PngEncoding)
    );
}

#[test]
fn capture_writes_ppm_and_png_of_the_same_frame() {
    let frame = doom_sized_frame(175, 0);
    let (ppm, png) = capture_doom_frame(&frame, DOOM_FRAME_W, DOOM_FRAME_H).expect("snapshot");
    let header = b"P6\n640 400\n255\n";
    assert_eq!(&ppm[..header.len()], header);
    assert_eq!(ppm.len(), header.len() + 640 * 400 * 3);
    assert_eq!(&ppm[header.len()..header.len() + 6], &frame_rgb(&frame[..8])[..]);
    let (w, h, rgb) = decode_png(&png);
    assert_eq!((w, h), (640, 400));
    assert_eq!(&rgb[..], &ppm[header.len()..]);
}

#[test]
fn capture_ignores_alpha() {
    let a = capture_doom_frame(&doom_sized_frame(90, 0), DOOM_FRAME_W, DOOM_FRAME_H);
    let b = capture_doom_frame(&doom_sized_frame(90, 255), DOOM_FRAME_W, DOOM_FRAME_H);
    assert_eq!(a, b);
    assert!(a.is_ok());
}
