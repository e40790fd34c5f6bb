//! Output sample layouts of the decoder.
//!
//! The names give the byte order of packed samples: `MODE_BGRA` is B, G, R, A, ...
//! Lower-case names stand for premultiplied RGB channels.
use vstd::prelude::*;

verus! {

/// A colorspace that decoded samples can be written in.
#[allow(non_camel_case_types)]
#[derive(Debug, Clone, Copy, PartialEq, Eq, PartialOrd, Ord, Hash, Structural)]
pub enum WEBP_CSP_MODE {
    MODE_RGB,
    MODE_RGBA,
    MODE_BGR,
    MODE_BGRA,
    MODE_ARGB,
    MODE_RGBA_4444,
    MODE_RGB_565,
    MODE_rgbA,
    MODE_bgrA,
    MODE_Argb,
    MODE_rgbA_4444,
    MODE_YUV,
    MODE_YUVA,
}

/// The modes whose RGB channels are premultiplied by alpha.
pub open spec fn is_premultiplied(m: WEBP_CSP_MODE) -> bool {
    m is MODE_rgbA || m is MODE_bgrA || m is MODE_Argb || m is MODE_rgbA_4444
}

/// The modes that carry an alpha channel.
pub open spec fn is_alpha(m: WEBP_CSP_MODE) -> bool {
    m is MODE_RGBA || m is MODE_BGRA || m is MODE_ARGB || m is MODE_RGBA_4444
        || m is MODE_YUVA || is_premultiplied(m)
}

/// The modes that pack all channels of a pixel together, as opposed to YUV planes.
pub open spec fn is_rgb(m: WEBP_CSP_MODE) -> bool {
    !(m is MODE_YUV || m is MODE_YUVA)
}

/// Bytes of one pixel in a packed mode; in a YUV mode, bytes of one luma sample.
pub open spec fn pixel_bytes(m: WEBP_CSP_MODE) -> nat {
    match m {
        WEBP_CSP_MODE::MODE_RGB | WEBP_CSP_MODE::MODE_BGR => 3,
        WEBP_CSP_MODE::MODE_RGBA | WEBP_CSP_MODE::MODE_BGRA | WEBP_CSP_MODE::MODE_ARGB
        | WEBP_CSP_MODE::MODE_rgbA | WEBP_CSP_MODE::MODE_bgrA | WEBP_CSP_MODE::MODE_Argb => 4,
        WEBP_CSP_MODE::MODE_RGBA_4444 | WEBP_CSP_MODE::MODE_RGB_565
        | WEBP_CSP_MODE::MODE_rgbA_4444 => 2,
        WEBP_CSP_MODE::MODE_YUV | WEBP_CSP_MODE::MODE_YUVA => 1,
    }
}

/// The numeric value of a colorspace in the native interface.
pub open spec fn mode_value(m: WEBP_CSP_MODE) -> u32 {
    match m {
        WEBP_CSP_MODE::MODE_RGB => 0,
        WEBP_CSP_MODE::MODE_RGBA => 1,
        WEBP_CSP_MODE::MODE_BGR => 2,
        WEBP_CSP_MODE::MODE_BGRA => 3,
        WEBP_CSP_MODE::MODE_ARGB => 4,
        WEBP_CSP_MODE::MODE_RGBA_4444 => 5,
        WEBP_CSP_MODE::MODE_RGB_565 => 6,
        WEBP_CSP_MODE::MODE_rgbA => 7,
        WEBP_CSP_MODE::MODE_bgrA => 8,
        WEBP_CSP_MODE::MODE_Argb => 9,
        WEBP_CSP_MODE::MODE_rgbA_4444 => 10,
        WEBP_CSP_MODE::MODE_YUV => 11,
        WEBP_CSP_MODE::MODE_YUVA => 12,
    }
}

impl WEBP_CSP_MODE {
    /// The colorspace with the given numeric value, if there is one.
    pub fn from_raw(raw: u32) -> (r: Option<WEBP_CSP_MODE>)
        ensures
            r matches Some(m) ==> mode_value(m) == raw,
            r is None <==> raw > 12,
    {
        match raw {
            0 => Some(WEBP_CSP_MODE::MODE_RGB),
            1 => Some(WEBP_CSP_MODE::MODE_RGBA),
            2 => Some(WEBP_CSP_MODE::MODE_BGR),
            3 => Some(WEBP_CSP_MODE::MODE_BGRA),
            4 => Some(WEBP_CSP_MODE::MODE_ARGB),
            5 => Some(WEBP_CSP_MODE::MODE_RGBA_4444),
            6 => Some(WEBP_CSP_MODE::MODE_RGB_565),
            7 => Some(WEBP_CSP_MODE::MODE_rgbA),
            8 => Some(WEBP_CSP_MODE::MODE_bgrA),
            9 => Some(WEBP_CSP_MODE::MODE_Argb),
            10 => Some(WEBP_CSP_MODE::MODE_rgbA_4444),
            11 => Some(WEBP_CSP_MODE::MODE_YUV),
            12 => Some(WEBP_CSP_MODE::MODE_YUVA),
            _ => None,
        }
    }

    /// The numeric value of this colorspace; the packed modes come first, 0 to 10.
    pub fn into_raw(self) -> (r: u32)
        ensures
            r == mode_value(self),
            is_rgb(self) <==> r <= 10,
    {
        match self {
            WEBP_CSP_MODE::MODE_RGB => 0,
            WEBP_CSP_MODE::MODE_RGBA => 1,
            WEBP_CSP_MODE::MODE_BGR => 2,
            WEBP_CSP_MODE::MODE_BGRA => 3,
            WEBP_CSP_MODE::MODE_ARGB => 4,
            WEBP_CSP_MODE::MODE_RGBA_4444 => 5,
            WEBP_CSP_MODE::MODE_RGB_565 => 6,
            WEBP_CSP_MODE::MODE_rgbA => 7,
            WEBP_CSP_MODE::MODE_bgrA => 8,
            WEBP_CSP_MODE::MODE_Argb => 9,
            WEBP_CSP_MODE::MODE_rgbA_4444 => 10,
            WEBP_CSP_MODE::MODE_YUV => 11,
            WEBP_CSP_MODE::MODE_YUVA => 12,
        }
    }
}

/// Whether `mode` premultiplies its RGB channels by alpha.
#[allow(non_snake_case)]
pub fn WebPIsPremultipliedMode(mode: WEBP_CSP_MODE) -> (r: bool)
    ensures
        r == is_premultiplied(mode),
{
    match mode {
        WEBP_CSP_MODE::MODE_rgbA | WEBP_CSP_MODE::MODE_bgrA | WEBP_CSP_MODE::MODE_Argb
        | WEBP_CSP_MODE::MODE_rgbA_4444 => true,
        _ => false,
    }
}

/// Whether `mode` carries an alpha channel.
#[allow(non_snake_case)]
pub fn WebPIsAlphaMode(mode: WEBP_CSP_MODE) -> (r: bool)
    ensures
        r == is_alpha(mode),
{
    match mode {
        WEBP_CSP_MODE::MODE_RGBA | WEBP_CSP_MODE::MODE_BGRA | WEBP_CSP_MODE::MODE_ARGB
        | WEBP_CSP_MODE::MODE_RGBA_4444 | WEBP_CSP_MODE::MODE_YUVA => true,
        _ => WebPIsPremultipliedMode(mode),
    }
}

/// Whether `mode` packs the channels of a pixel together.
#[allow(non_snake_case)]
pub fn WebPIsRGBMode(mode: WEBP_CSP_MODE) -> (r: bool)
    ensures
        r == is_rgb(mode),
{
    match mode {
        WEBP_CSP_MODE::MODE_YUV | WEBP_CSP_MODE::MODE_YUVA => false,
        _ => true,
    }
}

/// Bytes of one pixel (one luma sample in a YUV mode).
pub fn bytes_per_pixel(mode: WEBP_CSP_MODE) -> (r: u32)
    ensures
        r == pixel_bytes(mode),
        1 <= r <= 4,
{
    match mode {
        WEBP_CSP_MODE::MODE_RGB | WEBP_CSP_MODE::MODE_BGR => 3,
        WEBP_CSP_MODE::MODE_RGBA | WEBP_CSP_MODE::MODE_BGRA | WEBP_CSP_MODE::MODE_ARGB
        | WEBP_CSP_MODE::MODE_rgbA | WEBP_CSP_MODE::MODE_bgrA | WEBP_CSP_MODE::MODE_Argb => 4,
        WEBP_CSP_MODE::MODE_RGBA_4444 | WEBP_CSP_MODE::MODE_RGB_565
        | WEBP_CSP_MODE::MODE_rgbA_4444 => 2,
        WEBP_CSP_MODE::MODE_YUV | WEBP_CSP_MODE::MODE_YUVA => 1,
    }
}

} // verus!
