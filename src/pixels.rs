use vstd::prelude::*;

use crate::error::{fails_with, CaptureError, CaptureErrorKind};
use crate::geometry::CropRect;

verus! {

/// An image of `width * height` pixels, four bytes each in red, green, blue,
/// alpha order, rows from top to bottom.
#[derive(Debug)]
pub struct RgbaImage {
    pub width: u32,
    pub height: u32,
    pub data: Vec<u8>,
}

/// The number of bytes of a `width` by `height` buffer of four-byte pixels.
pub open spec fn buffer_len(width: int, height: int) -> int {
    width * height * 4
}

impl RgbaImage {
    pub open spec fn wf(&self) -> bool {
        self.data@.len() == buffer_len(self.width as int, self.height as int)
    }
}

/// The index whose byte lands at index `i` when the first and third byte of
/// every four-byte pixel trade places.
pub open spec fn swap_index(i: int) -> int {
    if i % 4 == 0 {
        i + 2
    } else if i % 4 == 2 {
        i - 2
    } else {
        i
    }
}

/// `s` with the first and third byte of every pixel exchanged: BGRA becomes
/// RGBA and RGBA becomes BGRA.
pub open spec fn channels_swapped(s: Seq<u8>) -> Seq<u8> {
    Seq::new(s.len(), |i: int| s[swap_index(i)])
}

/// Exchanges the red and blue byte of every pixel in place; green, alpha and
/// the order of pixels stay.
pub fn swap_red_blue(buf: &mut Vec<u8>)
    requires
        old(buf)@.len() % 4 == 0,
    ensures
        final(buf)@ == channels_swapped(old(buf)@),
{
    let n = buf.len();
    let ghost orig = buf@;
    let mut i: usize = 0;
    while i < n
        invariant
            n == buf@.len(),
            orig.len() == n,
            n % 4 == 0,
            i % 4 == 0,
            i <= n,
            forall|j: int| 0 <= j < i ==> buf@[j] == orig[swap_index(j)],
            forall|j: int| i <= j < n ==> buf@[j] == orig[j],
        decreases n - i,
    {
        let red = buf[i + 2];
        let blue = buf[i];
        buf[i] = red;
        buf[i + 2] = blue;
        i = i + 4;
    }
    assert(buf@ =~= channels_swapped(orig));
}

/// Swapping the channels twice gives back the buffer.
pub proof fn lemma_swap_round_trip(s: Seq<u8>)
    requires
        s.len() % 4 == 0,
    ensures
        channels_swapped(channels_swapped(s)) == s,
{
    assert(channels_swapped(channels_swapped(s)) =~= s);
}

/// Turns a BGRA buffer of `width * height` pixels into an RGBA image.
/// Fails with `InvalidBufferSize` when the buffer does not hold exactly
/// `width * height * 4` bytes.
pub fn bgra_to_rgba(width: u32, height: u32, buffer: Vec<u8>) -> (r: Result<RgbaImage, CaptureError>)
    ensures
        r is Ok <==> buffer@.len() == buffer_len(width as int, height as int),
        r is Ok ==> r->Ok_0.width == width && r->Ok_0.height == height && r->Ok_0.data@
            == channels_swapped(buffer@),
        r is Err ==> fails_with(r, CaptureErrorKind::InvalidBufferSize),
{
    let w = width as u128;
    let h = height as u128;
    assert(w * h * 4 <= 0xFFFF_FFFF * 0xFFFF_FFFF * 4) by (nonlinear_arith)
        requires
            w <= 0xFFFF_FFFF,
            h <= 0xFFFF_FFFF,
    ;
    let expected = w * h * 4;
    if buffer.len() as u128 != expected {
        return Err(CaptureError::new(CaptureErrorKind::InvalidBufferSize));
    }
    assert(buffer@.len() % 4 == 0) by (nonlinear_arith)
        requires
            buffer@.len() == w * h * 4,
    ;
    let mut data = buffer;
    swap_red_blue(&mut data);
    Ok(RgbaImage { width, height, data })
}

/// Turning BGRA into RGBA and swapping back gives the original buffer; a
/// buffer of the wrong length is refused.
pub proof fn lemma_convert_round_trip(width: u32, height: u32, buffer: Seq<u8>)
    ensures
        buffer.len() == buffer_len(width as int, height as int) ==> channels_swapped(
            channels_swapped(buffer),
        ) == buffer,
{
    if buffer.len() == buffer_len(width as int, height as int) {
        assert(buffer.len() % 4 == 0) by (nonlinear_arith)
            requires
                buffer.len() == width * height * 4,
        ;
        lemma_swap_round_trip(buffer);
    }
}

/// The rectangle `(x, y, w, h)` clipped to a `width` by `height` image.
pub open spec fn clipped(width: int, height: int, x: int, y: int, w: int, h: int) -> (int, int, int, int) {
    let cx = if x < width { x } else { width };
    let cy = if y < height { y } else { height };
    let cw = if w < width - cx { w } else { width - cx };
    let ch = if h < height - cy { h } else { height - cy };
    (cx, cy, cw, ch)
}

/// The bytes of the `cw` by `ch` pixels of a `width` pixels wide image `data`
/// whose top left pixel is at `(cx, cy)`, row by row.
pub open spec fn region_bytes(data: Seq<u8>, width: int, cx: int, cy: int, cw: int, ch: int) -> Seq<u8> {
    Seq::new(
        (cw * ch * 4) as nat,
        |i: int|
            {
                let p = i / 4;
                data[((cy + p / cw) * width + cx + p % cw) * 4 + i % 4]
            },
    )
}

/// `out` is the `cw` by `ch` image that clipping `(x, y, w, h)` to the
/// `width` by `height` image `data` leaves.
pub open spec fn is_crop_of(
    width: int,
    height: int,
    data: Seq<u8>,
    x: int,
    y: int,
    w: int,
    h: int,
    cw: int,
    ch: int,
    out: Seq<u8>,
) -> bool {
    let c = clipped(width, height, x, y, w, h);
    &&& cw == c.2
    &&& ch == c.3
    &&& out == region_bytes(data, width, c.0, c.1, c.2, c.3)
}

/// Relies on image::ImageBuffer::from_raw, image::imageops::crop_imm and
/// SubImage::to_image: from_raw accepts a buffer of at least width * height * 4
/// bytes; crop_imm clips the rectangle to the image; to_image copies the
/// clipped pixels out, row by row.
#[verifier::external_body]
fn crop_pixels(width: u32, height: u32, data: Vec<u8>, x: u32, y: u32, w: u32, h: u32) -> (r: Option<(u32, u32, Vec<u8>)>)
    requires
        data@.len() == buffer_len(width as int, height as int),
    ensures
        r is Some,
        is_crop_of(width as int, height as int, data@, x as int, y as int, w as int, h as int,
            r->Some_0.0 as int, r->Some_0.1 as int, r->Some_0.2@),
{
    match image::RgbaImage::from_raw(width, height, data) {
        Some(img) => {
            let part = image::imageops::crop_imm(&img, x, y, w, h).to_image();
            Some((part.width(), part.height(), part.into_raw()))
        },
        None => None,
    }
}

/// The part of `image` inside `rect`, clipped to the image. Fails with
/// `InvalidDimensions` when nothing of the rectangle lies inside the image.
pub fn crop_image(image: RgbaImage, rect: CropRect) -> (r: Result<RgbaImage, CaptureError>)
    requires
        image.wf(),
    ensures
        ({
            let (cx, cy, cw, ch) = clipped(
                image.width as int,
                image.height as int,
                rect.x as int,
                rect.y as int,
                rect.width as int,
                rect.height as int,
            );
            &&& r is Ok <==> cw > 0 && ch > 0
            &&& r is Ok ==> r->Ok_0.width == cw && r->Ok_0.height == ch
                && r->Ok_0.data@ == region_bytes(image.data@, image.width as int, cx, cy, cw, ch)
                && r->Ok_0.wf()
        }),
        r is Err ==> fails_with(r, CaptureErrorKind::InvalidDimensions),
{
    let max: u64 = 0xFFFF_FFFF;
    let (x, y, w, h) = (rect.x, rect.y, rect.width, rect.height);
    let x32 = if x < max { x as u32 } else { 0xFFFF_FFFFu32 };
    let y32 = if y < max { y as u32 } else { 0xFFFF_FFFFu32 };
    let w32 = if w < max { w as u32 } else { 0xFFFF_FFFFu32 };
    let h32 = if h < max { h as u32 } else { 0xFFFF_FFFFu32 };
    let width = image.width;
    let height = image.height;
    match crop_pixels(width, height, image.data, x32, y32, w32, h32) {
        Some((cw, ch, data)) => {
            if cw == 0 || ch == 0 {
                Err(CaptureError::new(CaptureErrorKind::InvalidDimensions))
            } else {
                Ok(RgbaImage { width: cw, height: ch, data })
            }
        },
        None => Err(CaptureError::new(CaptureErrorKind::PixelReadFailed)),
    }
}

} // verus!
