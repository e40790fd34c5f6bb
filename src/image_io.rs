//! The decisions behind reading and writing WebP images as pixel buffers: which
//! decoder or encoder a pixel layout takes, the stride of tightly packed rows, when
//! enough of a stream has arrived to know the image size, and serving decoded bytes
//! in pieces.
use vstd::prelude::*;

use crate::boxed::WebpBox;
use crate::decode::{decode_rgb, decode_rgba, get_info};
use crate::encode::{encode_bgr, encode_bgra, encode_rgb, encode_rgba};
use crate::error::WebPError;
use crate::native::{
    bgr_encoding_of, bgra_encoding_of, encode_args_fit, info_of, rgb_encoding_of,
    rgba_encoding_of, rgb_of, rgba_of,
};

verus! {

/// Quality at which images are written.
pub const WRITE_QUALITY: u8 = 75;

/// Pixel layouts that images are read in.
#[derive(Debug, Clone, Copy, PartialEq, Eq, Hash, Structural)]
pub enum WebpColor {
    RGB,
    RGBA,
}

/// Bytes of one pixel of a read layout.
pub open spec fn color_bytes(c: WebpColor) -> nat {
    match c {
        WebpColor::RGB => 3,
        WebpColor::RGBA => 4,
    }
}

/// The samples that reading `data` in layout `c` gives.
pub open spec fn pixels_of(data: Seq<u8>, c: WebpColor) -> Seq<u8> {
    match c {
        WebpColor::RGB => rgb_of(data),
        WebpColor::RGBA => rgba_of(data),
    }
}

impl WebpColor {
    /// Bytes of one pixel.
    pub fn bytes_per_pixel(self) -> (r: u32)
        ensures
            r == color_bytes(self),
    {
        match self {
            WebpColor::RGB => 3,
            WebpColor::RGBA => 4,
        }
    }
}

/// Adds the stride of tightly packed rows to the outcome of a packed decode in
/// layout `c`: a success keeps its size and buffer and gains the stride
/// `width * bytes_per_pixel`; a failure stays as it was.
pub fn with_packed_stride(d: Result<(u32, u32, WebpBox), WebPError>, c: WebpColor) -> (r: Result<
    (u32, u32, u32, WebpBox),
    WebPError,
>)
    requires
        d matches Ok((w, h, _)) ==> w <= 0x100_0000,
    ensures
        d matches Ok((w, h, b)) ==> (r matches Ok((w2, h2, s, b2)) && w2 == w && h2 == h && s
            == w * color_bytes(c) && b2@ == b@),
        d matches Err(e) ==> r == Err::<(u32, u32, u32, WebpBox), WebPError>(e),
{
    match d {
        Ok((w, h, b)) => Ok((w, h, w * c.bytes_per_pixel(), b)),
        Err(e) => Err(e),
    }
}

/// Decodes `data` in layout `color`. On success gives width, height, the stride of
/// the packed rows (`width` pixels) and the samples.
pub fn decode_with_color(data: &[u8], color: WebpColor) -> (r: Result<
    (u32, u32, u32, WebpBox),
    WebPError,
>)
    ensures
        r matches Ok((w, h, s, b)) ==> info_of(data@) == Some((w, h)) && s == w * color_bytes(
            color,
        ) && b@.len() == s * h && b@ == pixels_of(data@, color),
        r matches Err(e) ==> e == WebPError::Unclassified,
        info_of(data@) is None ==> r is Err,
        data@.len() < 12 ==> r is Err,
{
    let d = match color {
        WebpColor::RGB => decode_rgb(data),
        WebpColor::RGBA => decode_rgba(data),
    };
    let r = with_packed_stride(d, color);
    proof {
        if let Ok((w, h, _, _)) = r {
            assert(w * h * color_bytes(color) == w * color_bytes(color) * h) by (nonlinear_arith);
        }
    }
    r
}

/// Copies the samples of a decode outcome into memory of the Rust allocator: a
/// success keeps width and height and gives a vector of the same bytes, whose
/// native buffer is released; a failure stays as it was.
pub fn into_owned_pixels(d: Result<(u32, u32, u32, WebpBox), WebPError>) -> (r: Result<
    (u32, u32, Vec<u8>),
    WebPError,
>)
    ensures
        d matches Ok((w, h, _, b)) ==> (r matches Ok((w2, h2, v)) && w2 == w && h2 == h && v@
            == b@),
        d matches Err(e) ==> r == Err::<(u32, u32, Vec<u8>), WebPError>(e),
{
    match d {
        Ok((w, h, _, b)) => Ok((w, h, b.to_vec())),
        Err(e) => Err(e),
    }
}

/// Decodes `data` in layout `color` into memory of the Rust allocator: width, height
/// and the packed samples.
pub fn load_from_memory(data: &[u8], color: WebpColor) -> (r: Result<(u32, u32, Vec<u8>), WebPError>)
    ensures
        r matches Ok((w, h, v)) ==> info_of(data@) == Some((w, h)) && v@.len() == w * h
            * color_bytes(color) && v@ == pixels_of(data@, color),
        r matches Err(e) ==> e == WebPError::Unclassified,
        info_of(data@) is None ==> r is Err,
        data@.len() < 12 ==> r is Err,
{
    let d = decode_with_color(data, color);
    let r = into_owned_pixels(d);
    proof {
        if let Ok((w, h, _)) = r {
            assert(w * color_bytes(color) * h == w * h * color_bytes(color)) by (nonlinear_arith);
        }
    }
    r
}

/// Pixel layouts that images are written from.
#[derive(Debug, Clone, Copy, PartialEq, Eq, Hash, Structural)]
pub enum PixelLayout {
    Rgb,
    Rgba,
    Bgr,
    Bgra,
}

/// Bytes of one pixel of a written layout.
pub open spec fn layout_bytes(l: PixelLayout) -> nat {
    match l {
        PixelLayout::Rgb | PixelLayout::Bgr => 3,
        PixelLayout::Rgba | PixelLayout::Bgra => 4,
    }
}

/// What encoding `pixels` in layout `l` with rows `stride` bytes apart gives, at the
/// writing quality.
pub open spec fn encoding_of(l: PixelLayout, pixels: Seq<u8>, w: u32, h: u32, stride: u32) -> Seq<
    u8,
> {
    match l {
        PixelLayout::Rgb => rgb_encoding_of(pixels, w, h, stride, WRITE_QUALITY),
        PixelLayout::Rgba => rgba_encoding_of(pixels, w, h, stride, WRITE_QUALITY),
        PixelLayout::Bgr => bgr_encoding_of(pixels, w, h, stride, WRITE_QUALITY),
        PixelLayout::Bgra => bgra_encoding_of(pixels, w, h, stride, WRITE_QUALITY),
    }
}

/// Encodes an image of `width * height` tightly packed pixels in `layout` at the
/// writing quality, rows `width` pixels apart. A width whose row size overflows, or a
/// buffer of the wrong size, is an invalid parameter, found before any native call.
pub fn write_image(pixels: &[u8], width: u32, height: u32, layout: PixelLayout) -> (r: Result<
    WebpBox,
    WebPError,
>)
    ensures
        width * layout_bytes(layout) > u32::MAX ==> r == Err::<WebpBox, WebPError>(
            WebPError::InvalidParam,
        ),
        width * layout_bytes(layout) <= u32::MAX ==> {
            let stride = (width * layout_bytes(layout)) as u32;
            let fit = encode_args_fit(pixels@.len(), width, height, stride, layout_bytes(layout));
            &&& !fit ==> r == Err::<WebpBox, WebPError>(WebPError::InvalidParam)
            &&& r matches Ok(b) ==> fit && b@.len() > 0 && info_of(b@) == Some((width, height))
                && b@ == encoding_of(
                layout,
                pixels@,
                width,
                height,
                stride,
            )
            &&& fit ==> (r matches Err(e) ==> e == WebPError::Unclassified)
        },
{
    let bpp: u32 = match layout {
        PixelLayout::Rgb | PixelLayout::Bgr => 3,
        PixelLayout::Rgba | PixelLayout::Bgra => 4,
    };
    let stride = match width.checked_mul(bpp) {
        Some(s) => s,
        None => return Err(WebPError::InvalidParam),
    };
    match layout {
        PixelLayout::Rgb => encode_rgb(pixels, width, height, stride, WRITE_QUALITY),
        PixelLayout::Rgba => encode_rgba(pixels, width, height, stride, WRITE_QUALITY),
        PixelLayout::Bgr => encode_bgr(pixels, width, height, stride, WRITE_QUALITY),
        PixelLayout::Bgra => encode_bgra(pixels, width, height, stride, WRITE_QUALITY),
    }
}

/// Where reading a stream's header stands after one more read.
#[derive(Debug, Clone, Copy, PartialEq, Eq, Hash, Structural)]
pub enum InfoProbe {
    /// The bytes so far give the image size.
    Found(u32, u32),
    /// The size is not known yet and the stream may have more.
    NeedMore,
    /// The stream has ended without a recognisable header.
    Invalid,
}

/// Decides, from the bytes read so far and the length of the last read (0 at the
/// end of the stream), whether the header is complete, more is needed, or the
/// stream cannot be a WebP image.
pub fn probe_info(buf: &[u8], last_read: usize) -> (r: InfoProbe)
    ensures
        info_of(buf@) matches Some((w, h)) ==> r == InfoProbe::Found(w, h),
        info_of(buf@) is None && last_read == 0 ==> r == InfoProbe::Invalid,
        info_of(buf@) is None && last_read > 0 ==> r == InfoProbe::NeedMore,
{
    match get_info(buf) {
        Ok((w, h)) => InfoProbe::Found(w, h),
        Err(_) => if last_read == 0 {
            InfoProbe::Invalid
        } else {
            InfoProbe::NeedMore
        },
    }
}

/// Copies the next piece of `image`, from `index` on, to the front of `out`: as many
/// bytes as fit and remain. Returns the index after the piece; the rest of `out` is
/// left as it was.
pub fn read_piece(image: &[u8], index: usize, out: &mut [u8]) -> (r: usize)
    requires
        index <= image@.len(),
    ensures
        r == if index + old(out)@.len() <= image@.len() {
            index + old(out)@.len()
        } else {
            image@.len() as int
        },
        final(out)@.len() == old(out)@.len(),
        final(out)@.subrange(0, r - index) == image@.subrange(index as int, r as int),
        final(out)@.subrange(r - index, final(out)@.len() as int) == old(out)@.subrange(
            r - index,
            old(out)@.len() as int,
        ),
{
    let n: usize = if out.len() <= image.len() - index {
        out.len()
    } else {
        image.len() - index
    };
    let mut i: usize = 0;
    while i < n
        invariant
            n <= out@.len(),
            index + n <= image.len(),
            i <= n,
            out@.len() == old(out)@.len(),
            forall|k: int| 0 <= k < i ==> out@[k] == image@[index + k],
            forall|k: int| n <= k < out@.len() ==> out@[k] == old(out)@[k],
        decreases n - i,
    {
        out[i] = image[index + i];
        i = i + 1;
    }
    assert(out@.subrange(0, n as int) =~= image@.subrange(index as int, (index + n) as int));
    assert(out@.subrange(n as int, out@.len() as int) =~= old(out)@.subrange(
        n as int,
        old(out)@.len() as int,
    ));
    index + n
}

} // verus!
