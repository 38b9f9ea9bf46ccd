use vstd::prelude::*;

use crate::error::{fails_with, CaptureError, CaptureErrorKind};

verus! {

/// Window style bits of a title bar (a border and a dialog frame together).
pub const WS_CAPTION: u32 = 0x00C0_0000;
/// Window style bit of a sizing border.
pub const WS_THICKFRAME: u32 = 0x0004_0000;
/// Window style bit of a dialog frame.
pub const WS_DLGFRAME: u32 = 0x0040_0000;

/// A title bar must be taller than this many pixels to count as drawn by the OS.
pub const TITLE_BAR_MIN_HEIGHT: i64 = 25;
/// Each side and bottom border must be wider than this many pixels to count as drawn by the OS.
pub const BORDER_MIN_WIDTH: i64 = 5;

/// A rectangle in desktop coordinates; `right` and `bottom` are exclusive.
#[derive(Debug, Clone, Copy, PartialEq, Eq, Structural)]
pub struct Rect {
    pub left: i32,
    pub top: i32,
    pub right: i32,
    pub bottom: i32,
}

/// The outer bounds of a window, its client area and its style bits.
#[derive(Debug, Clone, Copy, PartialEq, Eq, Structural)]
pub struct WindowGeometry {
    pub window: Rect,
    pub client: Rect,
    pub style: u32,
}

/// The client rectangle lies inside the window rectangle (they may be equal).
pub open spec fn contains(outer: Rect, inner: Rect) -> bool {
    &&& outer.left <= inner.left <= inner.right <= outer.right
    &&& outer.top <= inner.top <= inner.bottom <= outer.bottom
}

impl WindowGeometry {
    pub open spec fn wf(&self) -> bool {
        contains(self.window, self.client)
    }

    /// Builds a geometry; fails with `InvalidDimensions` when the client
    /// rectangle does not lie inside the window rectangle.
    pub fn new(window: Rect, client: Rect, style: u32) -> (r: Result<WindowGeometry, CaptureError>)
        ensures
            r is Ok <==> contains(window, client),
            r is Ok ==> r->Ok_0 == (WindowGeometry { window, client, style }),
            r is Err ==> fails_with(r, CaptureErrorKind::InvalidDimensions),
    {
        if window.left <= client.left && client.left <= client.right && client.right <= window.right
            && window.top <= client.top && client.top <= client.bottom && client.bottom
            <= window.bottom {
            Ok(WindowGeometry { window, client, style })
        } else {
            Err(CaptureError::new(CaptureErrorKind::InvalidDimensions))
        }
    }
}

pub open spec fn title_bar_height(g: WindowGeometry) -> int {
    g.client.top - g.window.top
}

pub open spec fn left_border(g: WindowGeometry) -> int {
    g.client.left - g.window.left
}

pub open spec fn right_border(g: WindowGeometry) -> int {
    g.window.right - g.client.right
}

pub open spec fn bottom_border(g: WindowGeometry) -> int {
    g.window.bottom - g.client.bottom
}

pub open spec fn has_caption(style: u32) -> bool {
    style & WS_CAPTION != 0
}

pub open spec fn has_frame(style: u32) -> bool {
    style & WS_THICKFRAME != 0 || style & WS_DLGFRAME != 0
}

/// The window's title bar and borders are drawn by the OS: it has a caption
/// and a sizing or dialog frame, a title bar taller than the threshold, and
/// left, right and bottom borders all wider than the threshold.
pub open spec fn is_native_chrome(g: WindowGeometry) -> bool {
    &&& has_caption(g.style)
    &&& title_bar_height(g) > TITLE_BAR_MIN_HEIGHT
    &&& has_frame(g.style)
    &&& left_border(g) > BORDER_MIN_WIDTH
    &&& right_border(g) > BORDER_MIN_WIDTH
    &&& bottom_border(g) > BORDER_MIN_WIDTH
}

/// The outcome of classifying a window's chrome, with the measurements it rests on.
#[derive(Debug, Clone, Copy, PartialEq, Eq, Structural)]
pub struct ChromeClassification {
    pub native: bool,
    pub title_bar_height: i64,
    pub left_border: i64,
    pub right_border: i64,
    pub bottom_border: i64,
}

/// Decides from geometry and style alone whether the window has OS-drawn chrome.
pub fn classify(g: &WindowGeometry) -> (r: ChromeClassification)
    ensures
        r.native == is_native_chrome(*g),
        r.title_bar_height == title_bar_height(*g),
        r.left_border == left_border(*g),
        r.right_border == right_border(*g),
        r.bottom_border == bottom_border(*g),
{
    let title_bar_height = g.client.top as i64 - g.window.top as i64;
    let left_border = g.client.left as i64 - g.window.left as i64;
    let right_border = g.window.right as i64 - g.client.right as i64;
    let bottom_border = g.window.bottom as i64 - g.client.bottom as i64;
    let caption = g.style & WS_CAPTION != 0;
    let frame = g.style & WS_THICKFRAME != 0 || g.style & WS_DLGFRAME != 0;
    let native = caption && title_bar_height > TITLE_BAR_MIN_HEIGHT && frame && left_border
        > BORDER_MIN_WIDTH && right_border > BORDER_MIN_WIDTH && bottom_border > BORDER_MIN_WIDTH;
    ChromeClassification { native, title_bar_height, left_border, right_border, bottom_border }
}

/// Whether the window has an OS-drawn title bar and border.
pub fn window_has_native_header(g: &WindowGeometry) -> (r: bool)
    ensures
        r == is_native_chrome(*g),
{
    classify(g).native
}

/// A positive scale factor `num / den`: device pixels per reported unit.
#[derive(Debug, Clone, Copy, PartialEq, Eq, Structural)]
pub struct Scale {
    pub num: u32,
    pub den: u32,
}

impl Scale {
    pub open spec fn wf(&self) -> bool {
        self.num > 0 && self.den > 0
    }
}

/// The least integer not below `p / q`, for `q > 0`.
pub open spec fn ceil_div(p: int, q: int) -> int {
    (p + q - 1) / q
}

/// `d` scaled by `s` and rounded up.
pub open spec fn scaled_up(d: int, s: Scale) -> int {
    ceil_div(d * s.num, s.den as int)
}

/// `d` scaled by `s` and rounded down.
pub open spec fn scaled_down(d: int, s: Scale) -> int {
    (d * s.num) / (s.den as int)
}

/// A crop rectangle in device pixels, relative to the window's top left corner.
#[derive(Debug, Clone, Copy, PartialEq, Eq, Structural)]
pub struct CropRect {
    pub x: u64,
    pub y: u64,
    pub width: u64,
    pub height: u64,
}

/// Left edge of the crop: the left border, scaled and rounded up.
pub open spec fn crop_x(g: WindowGeometry, s: Scale) -> int {
    scaled_up(left_border(g), s)
}

/// Top edge of the crop: the window's top for native chrome (the title bar
/// stays), else the client area's top, scaled and rounded up.
pub open spec fn crop_y(g: WindowGeometry, s: Scale) -> int {
    if is_native_chrome(g) {
        0
    } else {
        scaled_up(title_bar_height(g), s)
    }
}

/// Width of the crop: the client width, scaled and rounded down.
pub open spec fn crop_width(g: WindowGeometry, s: Scale) -> int {
    scaled_down(g.client.right - g.client.left, s)
}

/// Height of the crop: from the window's top (native chrome) or the client
/// area's top down to the client area's bottom, scaled and rounded down.
pub open spec fn crop_height(g: WindowGeometry, s: Scale) -> int {
    if is_native_chrome(g) {
        scaled_down(g.client.bottom - g.window.top, s)
    } else {
        scaled_down(g.client.bottom - g.client.top, s)
    }
}

pub open spec fn crop_of(g: WindowGeometry, s: Scale) -> CropRect {
    CropRect {
        x: crop_x(g, s) as u64,
        y: crop_y(g, s) as u64,
        width: crop_width(g, s) as u64,
        height: crop_height(g, s) as u64,
    }
}

/// `d * num / den`, rounded up or down, for a distance `d < 2^32`.
fn scale_distance(d: u64, s: Scale, round_up: bool) -> (r: u64)
    requires
        s.wf(),
        d < 0x1_0000_0000,
    ensures
        r == (if round_up { scaled_up(d as int, s) } else { scaled_down(d as int, s) }),
{
    let num = s.num as u64;
    let den = s.den as u64;
    assert(d * num <= 0xFFFF_FFFF * 0xFFFF_FFFF) by (nonlinear_arith)
        requires
            d < 0x1_0000_0000,
            num < 0x1_0000_0000,
    ;
    let p = d * num;
    if round_up {
        (p + den - 1) / den
    } else {
        p / den
    }
}

/// The rectangle to keep of a window's bitmap: to the client area for
/// custom chrome, to the client area plus the title bar for native chrome.
/// Fails with `InvalidDimensions` when the crop has no width or no height.
pub fn crop_rect(g: &WindowGeometry, s: Scale) -> (r: Result<CropRect, CaptureError>)
    requires
        g.wf(),
        s.wf(),
    ensures
        r is Ok <==> crop_width(*g, s) > 0 && crop_height(*g, s) > 0,
        r is Ok ==> r->Ok_0 == crop_of(*g, s),
        r is Err ==> fails_with(r, CaptureErrorKind::InvalidDimensions),
{
    let native = window_has_native_header(g);
    let x = scale_distance((g.client.left as i64 - g.window.left as i64) as u64, s, true);
    let y = if native {
        0
    } else {
        scale_distance((g.client.top as i64 - g.window.top as i64) as u64, s, true)
    };
    let width = scale_distance((g.client.right as i64 - g.client.left as i64) as u64, s, false);
    let height = if native {
        scale_distance((g.client.bottom as i64 - g.window.top as i64) as u64, s, false)
    } else {
        scale_distance((g.client.bottom as i64 - g.client.top as i64) as u64, s, false)
    };
    if width == 0 || height == 0 {
        Err(CaptureError::new(CaptureErrorKind::InvalidDimensions))
    } else {
        Ok(CropRect { x, y, width, height })
    }
}

/// The largest width or height of a device-context bitmap.
pub const MAX_SURFACE_SIDE: u64 = 0x7FFF_FFFF;

/// The side `d` of the window's bitmap scaled by `s`, rounded up.
pub open spec fn surface_side(d: int, s: Scale) -> int {
    scaled_up(d, s)
}

/// The size of the bitmap to render a window into: the size of the bitmap
/// selected into the window's device context where that could be read,
/// else the size of the window rectangle, scaled by `s` and rounded up.
/// Fails with `InvalidDimensions` when a side is not positive or the scaled
/// side exceeds `MAX_SURFACE_SIDE`.
pub fn surface_size(window: Rect, selected: Option<(i32, i32)>, s: Scale) -> (r: Result<(u32, u32), CaptureError>)
    requires
        s.wf(),
    ensures
        ({
            let (bw, bh) = match selected {
                Some(b) => (b.0 as int, b.1 as int),
                None => (window.right - window.left, window.bottom - window.top),
            };
            &&& r is Ok <==> (bw > 0 && bh > 0 && surface_side(bw, s) <= MAX_SURFACE_SIDE
                && surface_side(bh, s) <= MAX_SURFACE_SIDE)
            &&& r is Ok ==> r->Ok_0.0 == surface_side(bw, s) && r->Ok_0.1 == surface_side(bh, s)
        }),
        r is Err ==> fails_with(r, CaptureErrorKind::InvalidDimensions),
{
    let (bw, bh) = match selected {
        Some(b) => (b.0 as i64, b.1 as i64),
        None => (window.right as i64 - window.left as i64, window.bottom as i64 - window.top as i64),
    };
    if bw <= 0 || bh <= 0 {
        return Err(CaptureError::new(CaptureErrorKind::InvalidDimensions));
    }
    let w = scale_distance(bw as u64, s, true);
    let h = scale_distance(bh as u64, s, true);
    if w > MAX_SURFACE_SIDE || h > MAX_SURFACE_SIDE {
        Err(CaptureError::new(CaptureErrorKind::InvalidDimensions))
    } else {
        Ok((w as u32, h as u32))
    }
}

/// Classification and cropping depend on the window's geometry and style
/// alone: equal geometries get the same classification and the same crop
/// rectangle at every scale.
pub proof fn lemma_classification_determined(g1: WindowGeometry, g2: WindowGeometry, s: Scale)
    requires
        g1.window == g2.window,
        g1.client == g2.client,
        g1.style == g2.style,
    ensures
        is_native_chrome(g1) == is_native_chrome(g2),
        crop_of(g1, s) == crop_of(g2, s),
{
    assert(g1 == g2);
}

} // verus!
