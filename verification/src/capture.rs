use vstd::prelude::*;

verus! {

/// One captured window image: `width * height` pixels, four bytes each (blue, green, red, alpha),
/// row by row from the top.
#[derive(Debug)]
pub struct Frame {
    pub width: i32,
    pub height: i32,
    pub bgra: Vec<u8>,
}

/// A window could not be captured.
#[derive(Debug)]
pub struct CaptureError;

/// A window rectangle in screen coordinates, as the window system reports it.
#[derive(Debug, Clone, Copy, PartialEq, Eq)]
pub struct WindowRect {
    pub left: i32,
    pub top: i32,
    pub right: i32,
    pub bottom: i32,
}

/// The screen area to copy: its top-left corner and its size.
#[derive(Debug, Clone, Copy, PartialEq, Eq)]
pub struct CaptureRegion {
    pub src_x: i32,
    pub src_y: i32,
    pub width: i32,
    pub height: i32,
}

/// Whether the width and height of `r` can be computed in `i32`.
pub open spec fn rect_size_fits(r: WindowRect) -> bool {
    i32::MIN <= r.right - r.left <= i32::MAX && i32::MIN <= r.bottom - r.top <= i32::MAX
}

/// The width and height of a rectangle, when both are positive.
pub fn rect_size(r: &WindowRect) -> (res: Option<(i32, i32)>)
    requires
        rect_size_fits(*r),
    ensures
        res is Some <==> (r.right - r.left > 0 && r.bottom - r.top > 0),
        res matches Some((w, h)) ==> w == r.right - r.left && h == r.bottom - r.top,
{
    let width = r.right - r.left;
    let height = r.bottom - r.top;
    if width <= 0 || height <= 0 {
        None
    } else {
        Some((width, height))
    }
}

/// Decides what to copy for a window: nothing for a null window handle, a window whose
/// rectangle could not be read (`rect` is `None`) or an empty rectangle; otherwise the
/// rectangle's area.
pub fn capture_region(handle_is_null: bool, rect: Option<WindowRect>) -> (res: Result<
    CaptureRegion,
    CaptureError,
>)
    requires
        rect matches Some(r) ==> rect_size_fits(r),
    ensures
        res is Ok <==> (!handle_is_null && (rect matches Some(r) && r.right - r.left > 0 && r.bottom
            - r.top > 0)),
        res matches Ok(region) ==> (rect matches Some(r) && region == CaptureRegion {
            src_x: r.left,
            src_y: r.top,
            width: (r.right - r.left) as i32,
            height: (r.bottom - r.top) as i32,
        }),
{
    if handle_is_null {
        return Err(CaptureError);
    }
    match rect {
        None => Err(CaptureError),
        Some(r) => match rect_size(&r) {
            None => Err(CaptureError),
            Some((width, height)) => Ok(CaptureRegion { src_x: r.left, src_y: r.top, width, height }),
        },
    }
}

/// Number of bytes of the pixel buffer for a region: four per pixel.
pub fn capture_buffer_len(region: &CaptureRegion) -> (n: usize)
    requires
        region.width > 0,
        region.height > 0,
        region.width * 4 <= i32::MAX,
        region.width * 4 * region.height <= usize::MAX,
    ensures
        n == region.width * 4 * region.height,
{
    let stride = (region.width * 4) as usize;
    stride * region.height as usize
}

/// The frame made from the copied pixels (a buffer of `capture_buffer_len` bytes, four per
/// pixel); the copy failed when it produced no scan lines.
pub fn finish_capture(region: &CaptureRegion, buffer: Vec<u8>, scan_lines: i32) -> (res: Result<
    Frame,
    CaptureError,
>)
    requires
        buffer@.len() == region.width * 4 * region.height,
    ensures
        res is Ok <==> scan_lines != 0,
        res matches Ok(f) ==> f.width == region.width && f.height == region.height && f.bgra
            == buffer && f.bgra@.len() == 4 * f.width * f.height,
{
    if scan_lines == 0 {
        return Err(CaptureError);
    }
    Ok(Frame { width: region.width, height: region.height, bgra: buffer })
}

} // verus!
