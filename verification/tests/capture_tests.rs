use mumu_remote::capture::{
    capture_buffer_len, capture_region, finish_capture, rect_size, CaptureRegion, WindowRect,
};

fn rect(left: i32, top: i32, right: i32, bottom: i32) -> WindowRect {
    WindowRect { left, top, right, bottom }
}

#[test]
fn null_window_is_refused() {
    assert!(capture_region(true, Some(rect(0, 0, 10, 10))).is_err());
}

#[test]
fn unreadable_or_empty_rect_is_refused() {
    assert!(capture_region(false, None).is_err());
    assert!(capture_region(false, Some(rect(5, 5, 5, 20))).is_err());
    assert!(capture_region(false, Some(rect(5, 5, 20, 2))).is_err());
}

#[test]
fn region_and_buffer_from_rect() {
    let region = capture_region(false, Some(rect(10, 20, 110, 70))).unwrap();
    assert_eq!(
        region,
        CaptureRegion { src_x: 10, src_y: 20, width: 100, height: 50 }
    );
    assert_eq!(capture_buffer_len(&region), 100 * 4 * 50);
    assert_eq!(rect_size(&rect(0, 0, 3, 4)), Some((3, 4)));
}

#[test]
fn finishing_needs_scan_lines() {
    let region = CaptureRegion { src_x: 0, src_y: 0, width: 1, height: 1 };
    assert!(finish_capture(&region, vec![1, 2, 3, 4], 0).is_err());
    let frame = finish_capture(&region, vec![1, 2, 3, 4], 1).unwrap();
    assert_eq!(frame.width, 1);
    assert_eq!(frame.bgra, vec![1, 2, 3, 4]);
}
