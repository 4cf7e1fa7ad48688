use xcap::frame::CursorMode;
use xcap::frame::Frame;
use xcap::frame::FrameFormat;

#[test]
fn two_by_one_rgba_frame_is_well_formed() {
    let raw = vec![10u8, 20, 30, 40, 50, 60, 70, 80];
    let f = Frame::new(2, 1, raw, FrameFormat::RGBA);
    assert_eq!(f.width, 2);
    assert_eq!(f.height, 1);
    assert_eq!(f.format, FrameFormat::RGBA);
    assert_eq!(f.raw.len(), (f.width * f.height * 4) as usize);
}

#[test]
fn bytes_per_pixel_exact_values() {
    assert_eq!(FrameFormat::RGB.bytes_per_pixel(), 3);
    assert_eq!(FrameFormat::BGR.bytes_per_pixel(), 3);
    assert_eq!(FrameFormat::ARGB.bytes_per_pixel(), 4);
    assert_eq!(FrameFormat::BGRA.bytes_per_pixel(), 4);
    assert_eq!(FrameFormat::RGBx.bytes_per_pixel(), 4);
    assert_eq!(FrameFormat::BGRx.bytes_per_pixel(), 4);
    assert_eq!(FrameFormat::RGBA.bytes_per_pixel(), 4);
}

#[test]
fn new_packs_the_caller_values_unchanged() {
    let raw = vec![1u8, 2, 3, 4, 5, 6, 7, 8, 9];
    let f = Frame::new(3, 1, raw.clone(), FrameFormat::BGR);
    assert_eq!(f.width, 3);
    assert_eq!(f.height, 1);
    assert_eq!(f.raw, raw);
    assert_eq!(f.format, FrameFormat::BGR);
}

#[test]
fn frames_are_independent_snapshots() {
    let a = Frame::new(1, 1, vec![1, 2, 3], FrameFormat::RGB);
    let b = a.clone();
    drop(a);
    assert_eq!(b.raw, vec![1, 2, 3]);
    assert_eq!(b.format, FrameFormat::RGB);
}

#[test]
fn cursor_modes_are_distinct() {
    assert_ne!(CursorMode::Hidden, CursorMode::Show);
    assert_eq!(CursorMode::Show, CursorMode::Show);
}
