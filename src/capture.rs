use vstd::prelude::*;

use crate::error::{fails_with, CaptureError, CaptureErrorKind};
use crate::geometry::{crop_height, crop_of, crop_rect, crop_width, Scale, WindowGeometry};
use crate::pixels::{bgra_to_rgba, buffer_len, channels_swapped, clipped, crop_image, region_bytes, RgbaImage};

verus! {

/// Checks the size of a requested monitor region. Fails with
/// `InvalidDimensions` unless both sides are positive.
pub fn monitor_size(width: i32, height: i32) -> (r: Result<(u32, u32), CaptureError>)
    ensures
        r is Ok <==> width > 0 && height > 0,
        r is Ok ==> r->Ok_0.0 == width && r->Ok_0.1 == height,
        r is Err ==> fails_with(r, CaptureErrorKind::InvalidDimensions),
{
    if width <= 0 || height <= 0 {
        Err(CaptureError::new(CaptureErrorKind::InvalidDimensions))
    } else {
        Ok((width as u32, height as u32))
    }
}

/// `pixels` holds a read-back of exactly `width * height` four-byte pixels.
pub open spec fn read_back_fits(width: u32, height: u32, pixels: Option<Vec<u8>>) -> bool {
    pixels is Some && pixels->Some_0@.len() == buffer_len(width as int, height as int)
}

/// Checks the read-back of a `width` by `height` bitmap and turns it into RGBA.
/// Fails with `InvalidDimensions` when a side is zero, else with
/// `PixelReadFailed` when the read failed (`None`) or gave a buffer of
/// another size.
pub fn read_back(width: u32, height: u32, pixels: Option<Vec<u8>>) -> (r: Result<RgbaImage, CaptureError>)
    ensures
        r is Ok <==> width > 0 && height > 0 && read_back_fits(width, height, pixels),
        width == 0 || height == 0 ==> fails_with(r, CaptureErrorKind::InvalidDimensions),
        width > 0 && height > 0 && !read_back_fits(width, height, pixels) ==> fails_with(
            r,
            CaptureErrorKind::PixelReadFailed,
        ),
        r is Ok ==> r->Ok_0.width == width && r->Ok_0.height == height && r->Ok_0.data@
            == channels_swapped(pixels->Some_0@) && r->Ok_0.wf(),
        r is Ok ==> r->Ok_0.width > 0 && r->Ok_0.height > 0,
{
    if width == 0 || height == 0 {
        return Err(CaptureError::new(CaptureErrorKind::InvalidDimensions));
    }
    match pixels {
        None => Err(CaptureError::new(CaptureErrorKind::PixelReadFailed)),
        Some(buf) => match bgra_to_rgba(width, height, buf) {
            Ok(img) => Ok(img),
            Err(_) => Err(CaptureError::new(CaptureErrorKind::PixelReadFailed)),
        },
    }
}

/// The capture step failed with OS error `code`: the result is
/// `CaptureMethodFailed` carrying that code.
pub open spec fn failed_with_code(r: Result<RgbaImage, CaptureError>, code: u32) -> bool {
    fails_with(r, CaptureErrorKind::CaptureMethodFailed) && r->Err_0.os_code == code
}

/// Finishes the capture of a `width` by `height` monitor region: `copy` is
/// the outcome of the screen copy (`Err` with the OS error code when it
/// failed), `pixels` is the read-back of the bitmap in BGRA order. The image
/// has exactly the requested size, which is never zero.
pub fn finish_monitor_capture(
    width: u32,
    height: u32,
    copy: Result<(), u32>,
    pixels: Option<Vec<u8>>,
) -> (r: Result<RgbaImage, CaptureError>)
    ensures
        copy is Err ==> failed_with_code(r, copy->Err_0),
        copy is Ok && (width == 0 || height == 0) ==> fails_with(
            r,
            CaptureErrorKind::InvalidDimensions,
        ),
        copy is Ok && width > 0 && height > 0 && !read_back_fits(width, height, pixels)
            ==> fails_with(r, CaptureErrorKind::PixelReadFailed),
        r is Ok <==> copy is Ok && width > 0 && height > 0 && read_back_fits(width, height, pixels),
        r is Ok ==> r->Ok_0.width == width && r->Ok_0.height == height && r->Ok_0.data@
            == channels_swapped(pixels->Some_0@),
        r is Ok ==> r->Ok_0.width > 0 && r->Ok_0.height > 0,
{
    match copy {
        Err(code) => Err(CaptureError::with_os_code(CaptureErrorKind::CaptureMethodFailed, code)),
        Ok(()) => read_back(width, height, pixels),
    }
}

/// The window image: the RGBA form of a `width` by `height` read-back,
/// cut to the crop rectangle of `g` at scale `s`, clipped to the bitmap.
pub open spec fn window_image_bytes(g: WindowGeometry, s: Scale, width: u32, height: u32, bgra: Seq<u8>) -> Seq<u8> {
    let c = crop_of(g, s);
    let k = clipped(width as int, height as int, c.x as int, c.y as int, c.width as int, c.height as int);
    region_bytes(channels_swapped(bgra), width as int, k.0, k.1, k.2, k.3)
}

/// The size `(width, height)` of the window image, clipped to the bitmap.
pub open spec fn window_image_size(g: WindowGeometry, s: Scale, width: u32, height: u32) -> (int, int) {
    let c = crop_of(g, s);
    let k = clipped(width as int, height as int, c.x as int, c.y as int, c.width as int, c.height as int);
    (k.2, k.3)
}

/// Finishes the capture of a window whose bitmap is `width` by `height`:
/// `outcome` tells whether a technique of the chain filled the bitmap (`Err`
/// with the OS error code of the last failed technique when none did),
/// `pixels` is its read-back in BGRA order. The image is cropped as the
/// window's chrome asks; an empty crop is `InvalidDimensions`.
pub fn finish_window_capture(
    g: &WindowGeometry,
    s: Scale,
    width: u32,
    height: u32,
    outcome: Result<(), u32>,
    pixels: Option<Vec<u8>>,
) -> (r: Result<RgbaImage, CaptureError>)
    requires
        g.wf(),
        s.wf(),
    ensures
        outcome is Err ==> failed_with_code(r, outcome->Err_0),
        outcome is Ok && (width == 0 || height == 0) ==> fails_with(
            r,
            CaptureErrorKind::InvalidDimensions,
        ),
        outcome is Ok && width > 0 && height > 0 && !read_back_fits(width, height, pixels)
            ==> fails_with(r, CaptureErrorKind::PixelReadFailed),
        outcome is Ok && width > 0 && height > 0 && read_back_fits(width, height, pixels) ==> (r is Ok <==> (crop_width(*g, s) > 0
            && crop_height(*g, s) > 0 && window_image_size(*g, s, width, height).0 > 0
            && window_image_size(*g, s, width, height).1 > 0)),
        outcome is Ok && read_back_fits(width, height, pixels) && r is Err ==> fails_with(
            r,
            CaptureErrorKind::InvalidDimensions,
        ),
        r is Ok ==> r->Ok_0.width > 0 && r->Ok_0.height > 0,
        r is Ok ==> r->Ok_0.width == window_image_size(*g, s, width, height).0
            && r->Ok_0.height == window_image_size(*g, s, width, height).1
            && r->Ok_0.data@ == window_image_bytes(*g, s, width, height, pixels->Some_0@),
{
    if let Err(code) = outcome {
        return Err(CaptureError::with_os_code(CaptureErrorKind::CaptureMethodFailed, code));
    }
    let image = match read_back(width, height, pixels) {
        Ok(img) => img,
        Err(e) => return Err(e),
    };
    let rect = match crop_rect(g, s) {
        Ok(c) => c,
        Err(e) => return Err(e),
    };
    crop_image(image, rect)
}

/// The size of a window image is fixed by the window's geometry, the scale
/// and the bitmap's size: two captures that agree on these, whatever pixels
/// they read and whichever technique filled the bitmap, give images of the
/// same size.
pub proof fn lemma_stable_dimensions(
    g1: WindowGeometry,
    g2: WindowGeometry,
    s: Scale,
    width: u32,
    height: u32,
    bgra1: Seq<u8>,
    bgra2: Seq<u8>,
)
    requires
        g1 == g2,
    ensures
        window_image_size(g1, s, width, height) == window_image_size(g2, s, width, height),
        window_image_bytes(g1, s, width, height, bgra1).len() == window_image_bytes(
            g2,
            s,
            width,
            height,
            bgra2,
        ).len(),
{
}

} // verus!
