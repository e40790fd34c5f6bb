//! Everything this crate takes on trust from the `libwebp` crate: its owning
//! buffer types, what they hold, and the codec entry points called by the
//! verified layer.
use libwebp::boxed::WebpBox as NativeBox;
use libwebp::boxed::WebpYuvBox as NativeYuvBox;
use libwebp::error::WebPSimpleError as NativeError;
use libwebp::WebPIDecoder as NativeIncremental;
use vstd::prelude::*;

verus! {

/// The `libwebp` crate's owning handle over memory from the native allocator;
/// it releases that memory through the native free function when dropped.
#[verifier::external_type_specification]
#[verifier::external_body]
#[verifier::reject_recursive_types(T)]
pub struct ExWebpBox<T: ?Sized>(NativeBox<T>);

/// The `libwebp` crate's three-plane handle; only the luma pointer is released on drop.
#[verifier::external_type_specification]
#[verifier::external_body]
pub struct ExWebpYuvBox(NativeYuvBox);

/// The `libwebp` crate's error value, which carries no information.
#[verifier::external_type_specification]
#[verifier::external_body]
pub struct ExWebPSimpleError(NativeError);

/// The bytes that a native buffer holds.
pub uninterp spec fn native_bytes(b: NativeBox<[u8]>) -> Seq<u8>;

/// Relies on `Deref for libwebp::boxed::WebpBox<[u8]>`: the slice over the whole buffer.
#[verifier::external_body]
pub(crate) fn native_slice(b: &NativeBox<[u8]>) -> (r: &[u8])
    ensures
        r@ == native_bytes(*b),
{
    &**b
}

/// Relies on `DerefMut for libwebp::boxed::WebpBox<[u8]>`: the slice over the whole
/// buffer, through which the buffer itself is written.
#[verifier::external_body]
pub(crate) fn native_slice_mut(b: &mut NativeBox<[u8]>) -> (r: &mut [u8])
    ensures
        r@ == native_bytes(*old(b)),
        native_bytes(*final(b)) == final(r)@,
{
    &mut **b
}

/// The luma plane that a native three-plane buffer holds.
pub uninterp spec fn native_luma(b: NativeYuvBox) -> Seq<u8>;

/// The chroma U plane that a native three-plane buffer holds.
pub uninterp spec fn native_chroma_u(b: NativeYuvBox) -> Seq<u8>;

/// The chroma V plane that a native three-plane buffer holds.
pub uninterp spec fn native_chroma_v(b: NativeYuvBox) -> Seq<u8>;

/// Relies on `libwebp::boxed::WebpYuvBox::yuv`: the three planes at once.
#[verifier::external_body]
pub(crate) fn native_planes(b: &NativeYuvBox) -> (r: (&[u8], &[u8], &[u8]))
    ensures
        r.0@ == native_luma(*b),
        r.1@ == native_chroma_u(*b),
        r.2@ == native_chroma_v(*b),
{
    b.yuv()
}

/// Relies on `libwebp::boxed::WebpYuvBox::yuv_mut`: the three planes at once, each
/// writable; writes land in the buffer's planes.
#[verifier::external_body]
pub(crate) fn native_planes_mut(b: &mut NativeYuvBox) -> (r: (
    &mut [u8],
    &mut [u8],
    &mut [u8],
))
    ensures
        r.0@ == native_luma(*old(b)),
        r.1@ == native_chroma_u(*old(b)),
        r.2@ == native_chroma_v(*old(b)),
        native_luma(*final(b)) == final(r.0)@,
        native_chroma_u(*final(b)) == final(r.1)@,
        native_chroma_v(*final(b)) == final(r.2)@,
{
    b.yuv_mut()
}

/// Relies on `libwebp::boxed::WebpYuvBox::into_y`: the luma plane becomes a buffer of
/// its own, which takes over the one release of the allocation.
#[verifier::external_body]
pub(crate) fn native_into_luma(b: NativeYuvBox) -> (r: NativeBox<[u8]>)
    ensures
        native_bytes(r) == native_luma(b),
{
    b.into_y()
}

/// Width and height that the native header parser reads from `data`, where it
/// recognises a WebP file.
pub uninterp spec fn info_of(data: Seq<u8>) -> Option<(u32, u32)>;

/// Relies on `libwebp::WebPGetInfo`: it only parses headers. Each dimension is read
/// from at most 24 bits plus one; input shorter than a RIFF header (12 bytes) fails.
#[verifier::external_body]
pub(crate) fn native_get_info(data: &[u8]) -> (r: Result<(u32, u32), NativeError>)
    ensures
        r matches Ok(p) ==> info_of(data@) == Some(p) && p.0 <= 0x100_0000 && p.1 <= 0x100_0000,
        r is Err ==> info_of(data@) is None,
        data@.len() < 12 ==> r is Err,
{
    libwebp::WebPGetInfo(data)
}

/// The R, G, B, A samples that the native decoder makes of `data`.
pub uninterp spec fn rgba_of(data: Seq<u8>) -> Seq<u8>;

/// Relies on `libwebp::WebPDecodeRGBA`: a successful decode has the dimensions that
/// `WebPGetInfo` reports (the native `Decode` asks it first) and 4 bytes per pixel;
/// input shorter than a RIFF header (12 bytes) fails.
#[verifier::external_body]
pub(crate) fn native_decode_rgba(data: &[u8]) -> (r: Result<(u32, u32, NativeBox<[u8]>), NativeError>)
    ensures
        r matches Ok((w, h, b)) ==> info_of(data@) == Some((w, h))
            && w <= 0x100_0000 && h <= 0x100_0000
            && native_bytes(b).len() == w * h * 4
            && native_bytes(b) == rgba_of(data@),
        data@.len() < 12 ==> r is Err,
{
    libwebp::WebPDecodeRGBA(data)
}

/// The A, R, G, B samples that the native decoder makes of `data`.
pub uninterp spec fn argb_of(data: Seq<u8>) -> Seq<u8>;

/// Relies on `libwebp::WebPDecodeARGB`: a successful decode has the dimensions that
/// `WebPGetInfo` reports (the native `Decode` asks it first) and 4 bytes per pixel;
/// input shorter than a RIFF header (12 bytes) fails.
#[verifier::external_body]
pub(crate) fn native_decode_argb(data: &[u8]) -> (r: Result<(u32, u32, NativeBox<[u8]>), NativeError>)
    ensures
        r matches Ok((w, h, b)) ==> info_of(data@) == Some((w, h))
            && w <= 0x100_0000 && h <= 0x100_0000
            && native_bytes(b).len() == w * h * 4
            && native_bytes(b) == argb_of(data@),
        data@.len() < 12 ==> r is Err,
{
    libwebp::WebPDecodeARGB(data)
}

/// The B, G, R, A samples that the native decoder makes of `data`.
pub uninterp spec fn bgra_of(data: Seq<u8>) -> Seq<u8>;

/// Relies on `libwebp::WebPDecodeBGRA`: a successful decode has the dimensions that
/// `WebPGetInfo` reports (the native `Decode` asks it first) and 4 bytes per pixel;
/// input shorter than a RIFF header (12 bytes) fails.
#[verifier::external_body]
pub(crate) fn native_decode_bgra(data: &[u8]) -> (r: Result<(u32, u32, NativeBox<[u8]>), NativeError>)
    ensures
        r matches Ok((w, h, b)) ==> info_of(data@) == Some((w, h))
            && w <= 0x100_0000 && h <= 0x100_0000
            && native_bytes(b).len() == w * h * 4
            && native_bytes(b) == bgra_of(data@),
        data@.len() < 12 ==> r is Err,
{
    libwebp::WebPDecodeBGRA(data)
}

/// The R, G, B samples that the native decoder makes of `data`.
pub uninterp spec fn rgb_of(data: Seq<u8>) -> Seq<u8>;

/// Relies on `libwebp::WebPDecodeRGB`: a successful decode has the dimensions that
/// `WebPGetInfo` reports (the native `Decode` asks it first) and 3 bytes per pixel;
/// input shorter than a RIFF header (12 bytes) fails.
#[verifier::external_body]
pub(crate) fn native_decode_rgb(data: &[u8]) -> (r: Result<(u32, u32, NativeBox<[u8]>), NativeError>)
    ensures
        r matches Ok((w, h, b)) ==> info_of(data@) == Some((w, h))
            && w <= 0x100_0000 && h <= 0x100_0000
            && native_bytes(b).len() == w * h * 3
            && native_bytes(b) == rgb_of(data@),
        data@.len() < 12 ==> r is Err,
{
    libwebp::WebPDecodeRGB(data)
}

/// The B, G, R samples that the native decoder makes of `data`.
pub uninterp spec fn bgr_of(data: Seq<u8>) -> Seq<u8>;

/// Relies on `libwebp::WebPDecodeBGR`: a successful decode has the dimensions that
/// `WebPGetInfo` reports (the native `Decode` asks it first) and 3 bytes per pixel;
/// input shorter than a RIFF header (12 bytes) fails.
#[verifier::external_body]
pub(crate) fn native_decode_bgr(data: &[u8]) -> (r: Result<(u32, u32, NativeBox<[u8]>), NativeError>)
    ensures
        r matches Ok((w, h, b)) ==> info_of(data@) == Some((w, h))
            && w <= 0x100_0000 && h <= 0x100_0000
            && native_bytes(b).len() == w * h * 3
            && native_bytes(b) == bgr_of(data@),
        data@.len() < 12 ==> r is Err,
{
    libwebp::WebPDecodeBGR(data)
}

/// The luma, chroma U and chroma V planes that the native decoder makes of `data`.
pub uninterp spec fn yuv_of(data: Seq<u8>) -> (Seq<u8>, Seq<u8>, Seq<u8>);

/// Relies on `libwebp::WebPDecodeYUV`: the luma plane has `height` rows of `stride`
/// bytes, each chroma plane `(height + 1) / 2` rows of `uv_stride` bytes; the
/// dimensions are those that `WebPGetInfo` reports; input shorter than 12 bytes fails.
#[verifier::external_body]
pub(crate) fn native_decode_yuv(data: &[u8]) -> (r: Result<(u32, u32, u32, u32, NativeYuvBox), NativeError>)
    ensures
        r matches Ok((w, h, s, us, b)) ==> info_of(data@) == Some((w, h))
            && w <= 0x100_0000 && h <= 0x100_0000
            && native_luma(b).len() == h * s
            && native_chroma_u(b).len() == (h + 1) / 2 * us
            && native_chroma_v(b).len() == (h + 1) / 2 * us
            && (native_luma(b), native_chroma_u(b), native_chroma_v(b)) == yuv_of(data@),
        data@.len() < 12 ==> r is Err,
{
    libwebp::WebPDecodeYUV(data)
}

/// Largest value of a C `int`.
pub const C_INT_MAX: u32 = 0x7fff_ffff;

/// Arguments that the native lossy encoders accept without panicking or reading past
/// the pixel buffer: sizes within a C `int`, exactly `width * height` pixels, and rows
/// no further apart than one row's bytes.
pub open spec fn encode_args_fit(len: nat, width: u32, height: u32, stride: u32, bpp: nat) -> bool {
    &&& width <= C_INT_MAX
    &&& height <= C_INT_MAX
    &&& stride <= C_INT_MAX
    &&& len == width * height * bpp
    &&& (height <= 1 || stride <= width * bpp)
}

/// The bytes that the native lossy encoder makes of R, G, B, A samples.
pub uninterp spec fn rgba_encoding_of(pixels: Seq<u8>, width: u32, height: u32, stride: u32, quality: u8) -> Seq<u8>;

/// Relies on `libwebp::WebPEncodeRGBA` (4 bytes per pixel, quality handed over as
/// the float of the same value). It panics unless the sizes fit a C `int` and the
/// buffer holds `width * height` pixels; the native import reads `stride` bytes per row.
/// The native encoder rejects sides above 16383 and writes `width` and `height` into
/// the frame header (`syntax_enc.c`), which the header parser reads back.
#[verifier::external_body]
pub(crate) fn native_encode_rgba(pixels: &[u8], width: u32, height: u32, stride: u32, quality: u8) -> (r: Result<NativeBox<[u8]>, NativeError>)
    requires
        encode_args_fit(pixels@.len(), width, height, stride, 4),
    ensures
        r matches Ok(b) ==> native_bytes(b).len() > 0
            && info_of(native_bytes(b)) == Some((width, height))
            && native_bytes(b) == rgba_encoding_of(pixels@, width, height, stride, quality),
{
    libwebp::WebPEncodeRGBA(pixels, width, height, stride, quality.into())
}

/// The bytes that the native lossy encoder makes of B, G, R, A samples.
pub uninterp spec fn bgra_encoding_of(pixels: Seq<u8>, width: u32, height: u32, stride: u32, quality: u8) -> Seq<u8>;

/// Relies on `libwebp::WebPEncodeBGRA` (4 bytes per pixel, quality handed over as
/// the float of the same value). It panics unless the sizes fit a C `int` and the
/// buffer holds `width * height` pixels; the native import reads `stride` bytes per row.
/// The native encoder rejects sides above 16383 and writes `width` and `height` into
/// the frame header (`syntax_enc.c`), which the header parser reads back.
#[verifier::external_body]
pub(crate) fn native_encode_bgra(pixels: &[u8], width: u32, height: u32, stride: u32, quality: u8) -> (r: Result<NativeBox<[u8]>, NativeError>)
    requires
        encode_args_fit(pixels@.len(), width, height, stride, 4),
    ensures
        r matches Ok(b) ==> native_bytes(b).len() > 0
            && info_of(native_bytes(b)) == Some((width, height))
            && native_bytes(b) == bgra_encoding_of(pixels@, width, height, stride, quality),
{
    libwebp::WebPEncodeBGRA(pixels, width, height, stride, quality.into())
}

/// The bytes that the native lossy encoder makes of R, G, B samples.
pub uninterp spec fn rgb_encoding_of(pixels: Seq<u8>, width: u32, height: u32, stride: u32, quality: u8) -> Seq<u8>;

/// Relies on `libwebp::WebPEncodeRGB` (3 bytes per pixel, quality handed over as
/// the float of the same value). It panics unless the sizes fit a C `int` and the
/// buffer holds `width * height` pixels; the native import reads `stride` bytes per row.
/// The native encoder rejects sides above 16383 and writes `width` and `height` into
/// the frame header (`syntax_enc.c`), which the header parser reads back.
#[verifier::external_body]
pub(crate) fn native_encode_rgb(pixels: &[u8], width: u32, height: u32, stride: u32, quality: u8) -> (r: Result<NativeBox<[u8]>, NativeError>)
    requires
        encode_args_fit(pixels@.len(), width, height, stride, 3),
    ensures
        r matches Ok(b) ==> native_bytes(b).len() > 0
            && info_of(native_bytes(b)) == Some((width, height))
            && native_bytes(b) == rgb_encoding_of(pixels@, width, height, stride, quality),
{
    libwebp::WebPEncodeRGB(pixels, width, height, stride, quality.into())
}

/// The bytes that the native lossy encoder makes of B, G, R samples.
pub uninterp spec fn bgr_encoding_of(pixels: Seq<u8>, width: u32, height: u32, stride: u32, quality: u8) -> Seq<u8>;

/// Relies on `libwebp::WebPEncodeBGR` (3 bytes per pixel, quality handed over as
/// the float of the same value). It panics unless the sizes fit a C `int` and the
/// buffer holds `width * height` pixels; the native import reads `stride` bytes per row.
/// The native encoder rejects sides above 16383 and writes `width` and `height` into
/// the frame header (`syntax_enc.c`), which the header parser reads back.
#[verifier::external_body]
pub(crate) fn native_encode_bgr(pixels: &[u8], width: u32, height: u32, stride: u32, quality: u8) -> (r: Result<NativeBox<[u8]>, NativeError>)
    requires
        encode_args_fit(pixels@.len(), width, height, stride, 3),
    ensures
        r matches Ok(b) ==> native_bytes(b).len() > 0
            && info_of(native_bytes(b)) == Some((width, height))
            && native_bytes(b) == bgr_encoding_of(pixels@, width, height, stride, quality),
{
    libwebp::WebPEncodeBGR(pixels, width, height, stride, quality.into())
}

/// The `libwebp` crate's incremental decoder; it deletes the native decoder when dropped.
#[verifier::external_type_specification]
#[verifier::external_body]
pub struct ExWebPIDecoder(NativeIncremental);

/// Relies on `libwebp::WebPINewRGB` with the colorspace of numeric value `mode`
/// (`WEBP_CSP_MODE::from_raw` panics past 12, `WebPINewRGB` on a YUV mode, 11 and 12).
#[verifier::external_body]
pub(crate) fn native_incremental_new(mode: u32) -> (r: NativeIncremental)
    requires
        mode <= 10,
{
    libwebp::WebPINewRGB(libwebp::WEBP_CSP_MODE::from_raw(mode))
}

/// Relies on `libwebp::WebPIAppend`, which panics on empty data: the numeric value
/// of the status it reports, one of the eight codes 0 to 7.
#[verifier::external_body]
pub(crate) fn native_incremental_append(d: &mut NativeIncremental, data: &[u8]) -> (r: u32)
    requires
        data@.len() > 0,
    ensures
        r <= 7,
{
    libwebp::WebPIAppend(d, data).into_raw()
}

/// Relies on `libwebp::WebPIDecGetRGB`: once the header is known, the rows decoded so
/// far as (last row, width, height, stride, samples), the samples being `stride`
/// bytes for each of the `last row` rows.
#[verifier::external_body]
pub(crate) fn native_incremental_rows(d: &NativeIncremental) -> (r: Option<(u32, u32, u32, u32, Vec<u8>)>)
    ensures
        r matches Some((last_y, w, h, s, rows)) ==> rows@.len() == s * last_y,
{
    match libwebp::WebPIDecGetRGB(d) {
        Ok(g) => Some((g.last_y, g.width, g.height, g.stride, g.buf.to_vec())),
        Err(_) => None,
    }
}

} // verus!
