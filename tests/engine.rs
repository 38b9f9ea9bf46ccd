use wincap::capture::{finish_monitor_capture, finish_window_capture, monitor_size, read_back};
use wincap::error::CaptureErrorKind;
use wincap::geometry::{Rect, Scale, WindowGeometry, WS_CAPTION, WS_THICKFRAME};
use wincap::resource::{ReleaseStack, Resource, ResourceKind};
use wincap::strategy::{first_step, next_step, render_flag, CaptureStep};

fn bgra(width: u32, height: u32) -> Vec<u8> {
    (0..width * height * 4).map(|i| (i % 253) as u8).collect()
}

fn window() -> WindowGeometry {
    WindowGeometry::new(
        Rect { left: 0, top: 0, right: 800, bottom: 600 },
        Rect { left: 8, top: 31, right: 792, bottom: 592 },
        WS_CAPTION | WS_THICKFRAME,
    )
    .unwrap()
}

#[test]
fn test_capture_monitor() {
    let (w, h) = monitor_size(100, 100).unwrap();
    let result = finish_monitor_capture(w, h, Ok(()), Some(bgra(w, h)));
    assert!(result.is_ok());
    let image = result.unwrap();
    assert_eq!(image.width, 100);
    assert_eq!(image.height, 100);
}

#[test]
fn test_capture_window() {
    let g = window();
    let result = finish_window_capture(&g, Scale { num: 1, den: 1 }, 800, 600, Ok(()), Some(bgra(800, 600)));
    assert!(result.is_ok());
    let image = result.unwrap();
    assert!(image.width > 0);
    assert!(image.height > 0);
}

#[test]
fn monitor_image_has_requested_size_and_rgba_bytes() {
    let image = finish_monitor_capture(3, 2, Ok(()), Some(bgra(3, 2))).unwrap();
    assert_eq!((image.width, image.height), (3, 2));
    assert_eq!(&image.data[..8], &[2, 1, 0, 3, 6, 5, 4, 7]);
}

#[test]
fn monitor_size_must_be_positive() {
    assert_eq!(monitor_size(0, 10).unwrap_err().kind, CaptureErrorKind::InvalidDimensions);
    assert_eq!(monitor_size(10, -1).unwrap_err().kind, CaptureErrorKind::InvalidDimensions);
}

#[test]
fn failed_screen_copy_is_capture_method_failed() {
    let e = finish_monitor_capture(10, 10, Err(6), Some(bgra(10, 10))).unwrap_err();
    assert_eq!(e.kind, CaptureErrorKind::CaptureMethodFailed);
    assert_eq!(e.os_code, 6);
}

#[test]
fn failed_read_back_is_pixel_read_failed() {
    assert_eq!(read_back(2, 2, None).unwrap_err().kind, CaptureErrorKind::PixelReadFailed);
    assert_eq!(read_back(2, 2, Some(vec![0; 12])).unwrap_err().kind, CaptureErrorKind::PixelReadFailed);
    let e = finish_monitor_capture(4, 4, Ok(()), None).unwrap_err();
    assert_eq!(e.kind, CaptureErrorKind::PixelReadFailed);
}

#[test]
fn window_image_is_cropped_to_chrome() {
    let g = window();
    let image = finish_window_capture(&g, Scale { num: 1, den: 1 }, 800, 600, Ok(()), Some(bgra(800, 600))).unwrap();
    assert_eq!((image.width, image.height), (784, 592));
    // First pixel is the bitmap's pixel (8, 0), channels swapped.
    let i = 8 * 4;
    assert_eq!(&image.data[..4], &[(i + 2) as u8, (i + 1) as u8, i as u8, (i + 3) as u8]);
}

#[test]
fn window_crop_is_clipped_to_a_small_bitmap() {
    let g = window();
    let image = finish_window_capture(&g, Scale { num: 1, den: 1 }, 100, 50, Ok(()), Some(bgra(100, 50))).unwrap();
    assert_eq!((image.width, image.height), (92, 50));
}

#[test]
fn window_crop_outside_bitmap_is_invalid() {
    let g = window();
    let e = finish_window_capture(&g, Scale { num: 1, den: 1 }, 8, 50, Ok(()), Some(bgra(8, 50))).unwrap_err();
    assert_eq!(e.kind, CaptureErrorKind::InvalidDimensions);
}

fn run_chain(os_major: u32, outcomes: &[bool]) -> (CaptureStep, Vec<CaptureStep>) {
    let mut step = first_step(os_major);
    let mut visited = Vec::new();
    let mut n = 0;
    while step != CaptureStep::Captured && step != CaptureStep::Exhausted {
        visited.push(step);
        step = next_step(step, outcomes[n]);
        n += 1;
    }
    (step, visited)
}

#[test]
fn chain_order_on_new_os() {
    let (end, visited) = run_chain(10, &[false, true, false, false, false]);
    assert_eq!(end, CaptureStep::Exhausted);
    assert_eq!(
        visited,
        vec![
            CaptureStep::RenderFullContent,
            CaptureStep::QueryComposition,
            CaptureStep::RenderComposited,
            CaptureStep::RenderOwnContent,
            CaptureStep::ScreenCopy,
        ]
    );
}

#[test]
fn chain_skips_full_content_on_old_os_and_stops_at_first_success() {
    let (end, visited) = run_chain(6, &[false, true]);
    assert_eq!(end, CaptureStep::Captured);
    assert_eq!(visited, vec![CaptureStep::QueryComposition, CaptureStep::RenderOwnContent]);
    let (end, visited) = run_chain(8, &[true]);
    assert_eq!(end, CaptureStep::Captured);
    assert_eq!(visited, vec![CaptureStep::RenderFullContent]);
}

#[test]
fn render_flags_of_steps() {
    assert_eq!(render_flag(CaptureStep::RenderFullContent), Some(2));
    assert_eq!(render_flag(CaptureStep::RenderComposited), Some(0));
    assert_eq!(render_flag(CaptureStep::RenderOwnContent), Some(4));
    assert_eq!(render_flag(CaptureStep::ScreenCopy), None);
    assert_eq!(render_flag(CaptureStep::QueryComposition), None);
}

#[test]
fn all_techniques_fail_and_every_handle_is_released() {
    let mut stack = ReleaseStack::new();
    stack.acquire(ResourceKind::WindowDc, 0x10, 0).unwrap();
    stack.acquire(ResourceKind::MemoryDc, 0x20, 0).unwrap();
    stack.acquire(ResourceKind::Bitmap, 0x30, 0).unwrap();
    let (end, _) = run_chain(10, &[false, true, false, false, false]);
    assert_eq!(end, CaptureStep::Exhausted);
    let g = window();
    let outcome = if end == CaptureStep::Captured { Ok(()) } else { Err(1400) };
    let e = finish_window_capture(&g, Scale { num: 1, den: 1 }, 800, 600, outcome, None).unwrap_err();
    assert_eq!(e.kind, CaptureErrorKind::CaptureMethodFailed);
    assert_eq!(e.os_code, 1400);
    let released = stack.release_order();
    assert_eq!(
        released,
        vec![
            Resource { kind: ResourceKind::Bitmap, handle: 0x30 },
            Resource { kind: ResourceKind::MemoryDc, handle: 0x20 },
            Resource { kind: ResourceKind::WindowDc, handle: 0x10 },
        ]
    );
}

#[test]
fn failed_acquisition_keeps_earlier_handles_for_release() {
    let mut stack = ReleaseStack::new();
    stack.acquire(ResourceKind::WindowDc, 0x10, 0).unwrap();
    let e = stack.acquire(ResourceKind::MemoryDc, 0, 87).unwrap_err();
    assert_eq!(e.kind, CaptureErrorKind::ResourceAcquisitionFailed);
    assert_eq!(e.os_code, 87);
    assert_eq!(stack.len(), 1);
    assert_eq!(stack.pop(), Some(Resource { kind: ResourceKind::WindowDc, handle: 0x10 }));
    assert_eq!(stack.pop(), None);
}

#[test]
fn repeated_captures_have_stable_size_and_release_everything() {
    let g = window();
    for _ in 0..100 {
        let mut stack = ReleaseStack::new();
        stack.acquire(ResourceKind::WindowDc, 1, 0).unwrap();
        stack.acquire(ResourceKind::MemoryDc, 2, 0).unwrap();
        stack.acquire(ResourceKind::Bitmap, 3, 0).unwrap();
        let image =
            finish_window_capture(&g, Scale { num: 1, den: 1 }, 800, 600, Ok(()), Some(bgra(800, 600))).unwrap();
        assert_eq!((image.width, image.height), (784, 592));
        assert_eq!(stack.release_order().len(), 3);
    }
}

#[test]
fn zero_sized_read_back_is_invalid_dimensions() {
    assert_eq!(read_back(0, 5, Some(Vec::new())).unwrap_err().kind, CaptureErrorKind::InvalidDimensions);
    assert_eq!(read_back(5, 0, None).unwrap_err().kind, CaptureErrorKind::InvalidDimensions);
    let e = finish_monitor_capture(0, 5, Ok(()), Some(Vec::new())).unwrap_err();
    assert_eq!(e.kind, CaptureErrorKind::InvalidDimensions);
    let g = window();
    let e = finish_window_capture(&g, Scale { num: 1, den: 1 }, 0, 600, Ok(()), Some(Vec::new())).unwrap_err();
    assert_eq!(e.kind, CaptureErrorKind::InvalidDimensions);
}
