//! Lossy encoding: the arguments are checked here, before any native call, and a
//! successful call yields an owning handle over the encoded file.
use libwebp::boxed::WebpBox as NativeBox;
use libwebp::error::WebPSimpleError as NativeError;
use vstd::prelude::*;

use crate::boxed::WebpBox;
use crate::error::WebPError;
use crate::native::{
    bgr_encoding_of, bgra_encoding_of, encode_args_fit, info_of, native_bytes, native_encode_bgr, native_encode_bgra,
    native_encode_rgb, native_encode_rgba, rgb_encoding_of, rgba_encoding_of, C_INT_MAX,
};

verus! {

/// Encoder presets, each a starting configuration for a kind of picture.
#[allow(non_camel_case_types)]
#[derive(Debug, Clone, Copy, PartialEq, Eq, Hash, Structural)]
pub enum WebPPreset {
    WEBP_PRESET_DEFAULT,
    WEBP_PRESET_PICTURE,
    WEBP_PRESET_PHOTO,
    WEBP_PRESET_DRAWING,
    WEBP_PRESET_ICON,
    WEBP_PRESET_TEXT,
}

/// Hints about the kind of picture being encoded.
#[allow(non_camel_case_types)]
#[derive(Debug, Clone, Copy, PartialEq, Eq, Hash, Structural)]
pub enum WebPImageHint {
    WEBP_HINT_DEFAULT,
    WEBP_HINT_PICTURE,
    WEBP_HINT_PHOTO,
    WEBP_HINT_GRAPH,
}

/// Colorspaces that the lossy encoder works in.
#[allow(non_camel_case_types)]
#[derive(Debug, Clone, Copy, PartialEq, Eq, Hash, Structural)]
pub enum WebPEncCSP {
    WEBP_YUV420,
    WEBP_YUV420A,
}

/// Failures that the native encoder reports.
#[allow(non_camel_case_types)]
#[derive(Debug, Clone, Copy, PartialEq, Eq, Hash, Structural)]
pub enum WebPEncodingError {
    VP8_ENC_OK,
    VP8_ENC_ERROR_OUT_OF_MEMORY,
    VP8_ENC_ERROR_BITSTREAM_OUT_OF_MEMORY,
    VP8_ENC_ERROR_NULL_PARAMETER,
    VP8_ENC_ERROR_INVALID_CONFIGURATION,
    VP8_ENC_ERROR_BAD_DIMENSION,
    VP8_ENC_ERROR_PARTITION0_OVERFLOW,
    VP8_ENC_ERROR_PARTITION_OVERFLOW,
    VP8_ENC_ERROR_BAD_WRITE,
    VP8_ENC_ERROR_FILE_TOO_BIG,
    VP8_ENC_ERROR_USER_ABORT,
    VP8_ENC_ERROR_LAST,
}

/// Accepts exactly the arguments that the native encoders take safely: sizes within a
/// C `int`, a buffer of `width * height * bpp` bytes, and rows at most one row of
/// pixels apart. Anything else is an invalid parameter.
pub fn check_encode_args(len: usize, width: u32, height: u32, stride: u32, bpp: u32) -> (r: Result<
    (),
    WebPError,
>)
    requires
        1 <= bpp <= 4,
    ensures
        r is Ok <==> encode_args_fit(len as nat, width, height, stride, bpp as nat),
        r matches Err(e) ==> e == WebPError::InvalidParam,
{
    if width > C_INT_MAX || height > C_INT_MAX || stride > C_INT_MAX {
        return Err(WebPError::InvalidParam);
    }
    let w = width as u64;
    let h = height as u64;
    let b = bpp as u64;
    assert(w * h <= 0x7fff_ffff * 0x7fff_ffff) by (nonlinear_arith)
        requires
            w <= 0x7fff_ffff,
            h <= 0x7fff_ffff,
    ;
    assert(w * h * b <= 0x7fff_ffff * 0x7fff_ffff * 4) by (nonlinear_arith)
        requires
            w * h <= 0x7fff_ffff * 0x7fff_ffff,
            b <= 4,
    ;
    assert(w * b <= 0x7fff_ffff * 4) by (nonlinear_arith)
        requires
            w <= 0x7fff_ffff,
            b <= 4,
    ;
    let row = w * b;
    let total = w * h * b;
    assert(total == width * height * bpp) by (nonlinear_arith)
        requires
            total == w * h * b,
            w == width,
            h == height,
            b == bpp,
    ;
    if total != len as u64 {
        return Err(WebPError::InvalidParam);
    }
    if height > 1 && stride as u64 > row {
        return Err(WebPError::InvalidParam);
    }
    Ok(())
}

/// Turns the outcome of one native encode into this crate's: a success becomes a
/// handle that owns the encoded file, any failure an unclassified one.
pub fn adopt_encoded(raw: Result<NativeBox<[u8]>, NativeError>) -> (r: Result<WebpBox, WebPError>)
    ensures
        raw is Ok <==> r is Ok,
        raw matches Ok(nb) ==> (r matches Ok(b) && b@ == native_bytes(nb)),
        raw is Err ==> r == Err::<WebpBox, WebPError>(WebPError::Unclassified),
{
    match raw {
        Ok(nb) => Ok(WebpBox::from_raw(nb)),
        Err(_) => Err(WebPError::Unclassified),
    }
}

/// The outcome of an encode call: an invalid parameter exactly when the arguments
/// do not fit, otherwise either a non-empty handle holding `encoded`, whose header
/// gives `width` by `height`, or a failure that the native encoder reported without
/// a reason.
pub open spec fn encode_outcome(
    width: u32,
    height: u32,
    args_fit: bool,
    r: Result<WebpBox, WebPError>,
    encoded: Seq<u8>,
) -> bool {
    &&& !args_fit ==> r == Err::<WebpBox, WebPError>(WebPError::InvalidParam)
    &&& r matches Ok(b) ==> args_fit && b@.len() > 0 && b@ == encoded && info_of(b@) == Some(
        (width, height),
    )
    &&& args_fit ==> (r matches Err(e) ==> e == WebPError::Unclassified)
}

/// Encodes packed R, G, B, A samples at `quality` (0 to 100).
pub fn encode_rgba(rgba: &[u8], width: u32, height: u32, stride: u32, quality: u8) -> (r: Result<
    WebpBox,
    WebPError,
>)
    ensures
        encode_outcome(
            width,
            height,
            encode_args_fit(rgba@.len(), width, height, stride, 4),
            r,
            rgba_encoding_of(rgba@, width, height, stride, quality),
        ),
{
    check_encode_args(rgba.len(), width, height, stride, 4)?;
    adopt_encoded(native_encode_rgba(rgba, width, height, stride, quality))
}

/// Encodes packed B, G, R, A samples at `quality` (0 to 100).
pub fn encode_bgra(bgra: &[u8], width: u32, height: u32, stride: u32, quality: u8) -> (r: Result<
    WebpBox,
    WebPError,
>)
    ensures
        encode_outcome(
            width,
            height,
            encode_args_fit(bgra@.len(), width, height, stride, 4),
            r,
            bgra_encoding_of(bgra@, width, height, stride, quality),
        ),
{
    check_encode_args(bgra.len(), width, height, stride, 4)?;
    adopt_encoded(native_encode_bgra(bgra, width, height, stride, quality))
}

/// Encodes packed R, G, B samples at `quality` (0 to 100).
pub fn encode_rgb(rgb: &[u8], width: u32, height: u32, stride: u32, quality: u8) -> (r: Result<
    WebpBox,
    WebPError,
>)
    ensures
        encode_outcome(
            width,
            height,
            encode_args_fit(rgb@.len(), width, height, stride, 3),
            r,
            rgb_encoding_of(rgb@, width, height, stride, quality),
        ),
{
    check_encode_args(rgb.len(), width, height, stride, 3)?;
    adopt_encoded(native_encode_rgb(rgb, width, height, stride, quality))
}

/// Encodes packed B, G, R samples at `quality` (0 to 100).
pub fn encode_bgr(bgr: &[u8], width: u32, height: u32, stride: u32, quality: u8) -> (r: Result<
    WebpBox,
    WebPError,
>)
    ensures
        encode_outcome(
            width,
            height,
            encode_args_fit(bgr@.len(), width, height, stride, 3),
            r,
            bgr_encoding_of(bgr@, width, height, stride, quality),
        ),
{
    check_encode_args(bgr.len(), width, height, stride, 3)?;
    adopt_encoded(native_encode_bgr(bgr, width, height, stride, quality))
}

} // verus!
