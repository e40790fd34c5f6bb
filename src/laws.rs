//! Properties that tie several operations of the crate together.
use vstd::prelude::*;

use crate::boxed::{WebpBox, WebpYuvBox};
use crate::decode::{info_outcome, packed_outcome, yuv_outcome};
use crate::encode::encode_outcome;
use crate::error::WebPError;
use crate::layout::{WebPDecBuffer, WebPDecBufferRegions};
use crate::native::encode_args_fit;

verus! {

/// A successful packed decode of `data` reports the very width and height that the
/// info query gives for the same bytes.
pub proof fn lemma_decode_size_is_info_size(
    data: Seq<u8>,
    decoded: Result<(u32, u32, WebpBox), WebPError>,
    bpp: int,
    pixels: Seq<u8>,
    info: Result<(u32, u32), WebPError>,
)
    requires
        packed_outcome(data, decoded, bpp, pixels),
        info_outcome(data, info),
    ensures
        decoded matches Ok((w, h, _)) ==> info == Ok::<(u32, u32), WebPError>((w, h)),
        info is Err ==> decoded is Err,
{
}

/// A pixel buffer whose length is not `width * height * bpp` makes every encoder fail
/// with an invalid parameter.
pub proof fn lemma_size_mismatch_is_invalid(
    len: nat,
    width: u32,
    height: u32,
    stride: u32,
    bpp: nat,
    r: Result<WebpBox, WebPError>,
    encoded: Seq<u8>,
)
    requires
        len != width * height * bpp,
        encode_outcome(width, height, encode_args_fit(len, width, height, stride, bpp), r, encoded),
    ensures
        r == Err::<WebpBox, WebPError>(WebPError::InvalidParam),
{
}

/// The planes of a successful YUV decode have exactly the sizes of the planar
/// buffer that its dimensions and strides describe.
pub proof fn lemma_yuv_planes_fill_layout(
    data: Seq<u8>,
    decoded: Result<(u32, u32, u32, u32, WebpYuvBox), WebPError>,
    layout: WebPDecBuffer,
)
    requires
        yuv_outcome(data, decoded),
        decoded matches Ok((w, h, s, us, _)) && layout.wf() && layout.width == w && layout.height
            == h && (layout.u matches WebPDecBufferRegions::YUVA(p) && p.y_stride == s
            && p.u_stride == us && p.v_stride == us),
    ensures
        decoded matches Ok((_, _, _, _, b)) && (layout.u matches WebPDecBufferRegions::YUVA(p)
            && b@.0.len() == p.y_size && b@.1.len() == p.u_size && b@.2.len() == p.v_size),
{
}

/// Decoding, encoding the decoded samples again and decoding the result keeps the
/// width and height: where all three calls succeed, the second decode reports the
/// size of the first.
pub proof fn lemma_reencode_keeps_size(
    data: Seq<u8>,
    first: Result<(u32, u32, WebpBox), WebPError>,
    first_pixels: Seq<u8>,
    args_fit: bool,
    encoded: Result<WebpBox, WebPError>,
    encoded_bytes: Seq<u8>,
    second: Result<(u32, u32, WebpBox), WebPError>,
    second_pixels: Seq<u8>,
    bpp: int,
)
    requires
        packed_outcome(data, first, bpp, first_pixels),
        first matches Ok((w, h, _)) && encode_outcome(w, h, args_fit, encoded, encoded_bytes),
        encoded matches Ok(e) && packed_outcome(e@, second, bpp, second_pixels),
        second is Ok,
    ensures
        first matches Ok((w, h, _)) && (second matches Ok((w2, h2, _)) && w2 == w && h2 == h),
{
}

} // verus!
