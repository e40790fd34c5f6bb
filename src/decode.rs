//! Decoding: each call makes one native decode and turns its outcome into either
//! an owning handle over the decoded samples or a failure, never both.
use libwebp::boxed::WebpBox as NativeBox;
use libwebp::boxed::WebpYuvBox as NativeYuvBox;
use libwebp::error::WebPSimpleError as NativeError;
use vstd::prelude::*;

use crate::boxed::{WebpBox, WebpYuvBox};
use crate::error::WebPError;
use crate::native::{
    argb_of, bgr_of, bgra_of, info_of, native_bytes, native_chroma_u, native_chroma_v,
    native_luma, native_decode_argb, native_decode_bgr,
    native_decode_bgra, native_decode_rgb, native_decode_rgba, native_decode_yuv,
    native_get_info, rgb_of, rgba_of, yuv_of,
};

verus! {

/// Bytes of a luma plane of `height` rows, `stride` bytes apart.
pub open spec fn luma_len(height: int, stride: int) -> int {
    height * stride
}

/// Rows of a 4:2:0 chroma plane: half the image rows, rounded up.
pub open spec fn chroma_rows(height: int) -> int {
    (height + 1) / 2
}

/// Bytes of a chroma plane of an image `height` rows high, rows `uv_stride` bytes apart.
pub open spec fn chroma_len(height: int, uv_stride: int) -> int {
    chroma_rows(height) * uv_stride
}

/// What a packed decode promises of its outcome: a handle of exactly
/// `width * height * bpp` bytes holding `pixels`, with the dimensions that the
/// header reports; a failure only where no handle was made; and a failure on input
/// shorter than a RIFF header.
pub open spec fn packed_outcome(
    data: Seq<u8>,
    r: Result<(u32, u32, WebpBox), WebPError>,
    bpp: int,
    pixels: Seq<u8>,
) -> bool {
    &&& r matches Ok((w, h, b)) ==> info_of(data) == Some((w, h)) && w <= 0x100_0000
        && h <= 0x100_0000 && b@.len() == w * h * bpp && b@ == pixels
    &&& r matches Err(e) ==> e == WebPError::Unclassified
    &&& info_of(data) is None ==> r is Err
    &&& data.len() < 12 ==> r is Err
}

/// What the info query promises: the size that the headers give, each side at most
/// 2^24; an unclassified failure exactly where the headers are not recognised, which
/// includes every input shorter than a RIFF header.
pub open spec fn info_outcome(data: Seq<u8>, r: Result<(u32, u32), WebPError>) -> bool {
    &&& r matches Ok(p) ==> info_of(data) == Some(p) && p.0 <= 0x100_0000 && p.1 <= 0x100_0000
    &&& r is Err <==> info_of(data) is None
    &&& r matches Err(e) ==> e == WebPError::Unclassified
    &&& data.len() < 12 ==> r is Err
}

/// Turns the outcome of one native packed decode into this crate's: a success
/// becomes a handle that owns the native buffer, any failure an unclassified one;
/// on failure there is no buffer to release.
pub fn adopt_packed(raw: Result<(u32, u32, NativeBox<[u8]>), NativeError>) -> (r: Result<
    (u32, u32, WebpBox),
    WebPError,
>)
    ensures
        raw is Ok <==> r is Ok,
        raw matches Ok((w, h, nb)) ==> (r matches Ok((w2, h2, b)) && w2 == w && h2 == h && b@
            == native_bytes(nb)),
        raw is Err ==> r == Err::<(u32, u32, WebpBox), WebPError>(WebPError::Unclassified),
{
    match raw {
        Ok((w, h, nb)) => Ok((w, h, WebpBox::from_raw(nb))),
        Err(_) => Err(WebPError::Unclassified),
    }
}

/// Turns the outcome of one native YUV decode into this crate's: a success becomes
/// a three-plane handle that owns the native buffer, any failure an unclassified one.
pub fn adopt_planes(raw: Result<(u32, u32, u32, u32, NativeYuvBox), NativeError>) -> (r: Result<
    (u32, u32, u32, u32, WebpYuvBox),
    WebPError,
>)
    ensures
        raw is Ok <==> r is Ok,
        raw matches Ok((w, h, s, us, nb)) ==> (r matches Ok((w2, h2, s2, us2, b)) && w2 == w
            && h2 == h && s2 == s && us2 == us && b@ == (
            native_luma(nb),
            native_chroma_u(nb),
            native_chroma_v(nb),
        )),
        raw is Err ==> r == Err::<(u32, u32, u32, u32, WebpYuvBox), WebPError>(
            WebPError::Unclassified,
        ),
{
    match raw {
        Ok((w, h, s, us, nb)) => Ok((w, h, s, us, WebpYuvBox::from_raw_yuv(nb))),
        Err(_) => Err(WebPError::Unclassified),
    }
}

/// Reads width and height from the headers of `data`, without decoding.
pub fn get_info(data: &[u8]) -> (r: Result<(u32, u32), WebPError>)
    ensures
        info_outcome(data@, r),
{
    match native_get_info(data) {
        Ok(p) => Ok(p),
        Err(_) => Err(WebPError::Unclassified),
    }
}

/// Decodes `data` into packed R, G, B, A samples.
pub fn decode_rgba(data: &[u8]) -> (r: Result<(u32, u32, WebpBox), WebPError>)
    ensures
        packed_outcome(data@, r, 4, rgba_of(data@)),
{
    adopt_packed(native_decode_rgba(data))
}

/// Decodes `data` into packed A, R, G, B samples.
pub fn decode_argb(data: &[u8]) -> (r: Result<(u32, u32, WebpBox), WebPError>)
    ensures
        packed_outcome(data@, r, 4, argb_of(data@)),
{
    adopt_packed(native_decode_argb(data))
}

/// Decodes `data` into packed B, G, R, A samples.
pub fn decode_bgra(data: &[u8]) -> (r: Result<(u32, u32, WebpBox), WebPError>)
    ensures
        packed_outcome(data@, r, 4, bgra_of(data@)),
{
    adopt_packed(native_decode_bgra(data))
}

/// Decodes `data` into packed R, G, B samples.
pub fn decode_rgb(data: &[u8]) -> (r: Result<(u32, u32, WebpBox), WebPError>)
    ensures
        packed_outcome(data@, r, 3, rgb_of(data@)),
{
    adopt_packed(native_decode_rgb(data))
}

/// Decodes `data` into packed B, G, R samples.
pub fn decode_bgr(data: &[u8]) -> (r: Result<(u32, u32, WebpBox), WebPError>)
    ensures
        packed_outcome(data@, r, 3, bgr_of(data@)),
{
    adopt_packed(native_decode_bgr(data))
}

/// What a YUV decode promises of its outcome: the header's dimensions, a luma plane
/// of `height * stride` bytes and chroma planes of `ceil(height / 2) * uv_stride`
/// bytes holding the decoded planes; a failure only where no handle was made; and
/// a failure on input shorter than a RIFF header.
pub open spec fn yuv_outcome(
    data: Seq<u8>,
    r: Result<(u32, u32, u32, u32, WebpYuvBox), WebPError>,
) -> bool {
    &&& r matches Ok((w, h, s, us, b)) ==> info_of(data) == Some((w, h)) && w <= 0x100_0000
        && h <= 0x100_0000 && b@.0.len() == luma_len(h as int, s as int) && b@.1.len()
        == chroma_len(h as int, us as int) && b@.2.len() == chroma_len(h as int, us as int)
        && b@ == yuv_of(data)
    &&& r matches Err(e) ==> e == WebPError::Unclassified
    &&& info_of(data) is None ==> r is Err
    &&& data.len() < 12 ==> r is Err
}

/// Decodes `data` into 4:2:0 planes. On success gives width, height, luma stride,
/// chroma stride and the planes: luma of `height * stride` bytes, each chroma plane
/// of `ceil(height / 2) * uv_stride` bytes.
pub fn decode_yuv(data: &[u8]) -> (r: Result<(u32, u32, u32, u32, WebpYuvBox), WebPError>)
    ensures
        yuv_outcome(data@, r),
{
    adopt_planes(native_decode_yuv(data))
}

} // verus!
