//! Descriptions of decoder output buffers: their colorspace, dimensions, strides
//! and the byte size of each region, computed from the dimensions alone.
use vstd::prelude::*;

use crate::boxed::{WebpBox, WebpYuvBox};
use crate::colorspace::{bytes_per_pixel, is_rgb, pixel_bytes, WEBP_CSP_MODE};
use crate::decode::{chroma_len, luma_len};

verus! {

/// Packed samples: rows `stride` bytes apart, `size` bytes in all.
#[derive(Debug, Clone, Copy, PartialEq, Eq, Hash, Structural)]
pub struct WebPRGBABuffer {
    pub stride: u32,
    pub size: usize,
}

/// Planar samples: luma, chroma U, chroma V and alpha planes, each with its stride
/// and byte size. A buffer without alpha has an alpha plane of size 0.
#[derive(Debug, Clone, Copy, PartialEq, Eq, Hash, Structural)]
pub struct WebPYUVABuffer {
    pub y_stride: u32,
    pub u_stride: u32,
    pub v_stride: u32,
    pub a_stride: u32,
    pub y_size: usize,
    pub u_size: usize,
    pub v_size: usize,
    pub a_size: usize,
}

/// The regions of an output buffer, by kind of colorspace.
#[derive(Debug, Clone, Copy, PartialEq, Eq, Hash, Structural)]
pub enum WebPDecBufferRegions {
    RGBA(WebPRGBABuffer),
    YUVA(WebPYUVABuffer),
}

/// An output buffer: colorspace, dimensions and regions.
#[derive(Debug, Clone, Copy, PartialEq, Eq, Hash, Structural)]
pub struct WebPDecBuffer {
    pub colorspace: WEBP_CSP_MODE,
    pub width: u32,
    pub height: u32,
    pub u: WebPDecBufferRegions,
}

impl WebPDecBuffer {
    /// The regions agree with the colorspace and dimensions: packed rows hold a whole
    /// row of pixels and the buffer holds `height` of them; each plane holds its rows.
    pub open spec fn wf(&self) -> bool {
        match self.u {
            WebPDecBufferRegions::RGBA(b) => {
                &&& is_rgb(self.colorspace)
                &&& b.stride >= self.width * pixel_bytes(self.colorspace)
                &&& b.size == luma_len(self.height as int, b.stride as int)
            },
            WebPDecBufferRegions::YUVA(b) => {
                &&& !is_rgb(self.colorspace)
                &&& b.y_stride >= self.width
                &&& b.y_size == luma_len(self.height as int, b.y_stride as int)
                &&& b.u_size == chroma_len(self.height as int, b.u_stride as int)
                &&& b.v_size == chroma_len(self.height as int, b.v_stride as int)
                &&& b.a_size == luma_len(self.height as int, b.a_stride as int)
            },
        }
    }

    /// Bytes of the region that owns the allocation: the packed rows, or the luma plane.
    pub open spec fn head_size(&self) -> int {
        match self.u {
            WebPDecBufferRegions::RGBA(b) => b.size as int,
            WebPDecBufferRegions::YUVA(b) => b.y_size as int,
        }
    }

    /// The tightly packed buffer for a `width` by `height` image in `mode`: rows of
    /// exactly `width` pixels. `None` where a row or the whole does not fit the
    /// integer types.
    pub fn packed(mode: WEBP_CSP_MODE, width: u32, height: u32) -> (r: Option<WebPDecBuffer>)
        requires
            is_rgb(mode),
        ensures
            r is Some <==> width * pixel_bytes(mode) <= u32::MAX && width * pixel_bytes(mode)
                * height <= usize::MAX,
            r matches Some(b) ==> b.wf() && b.colorspace == mode && b.width == width && b.height
                == height && (b.u matches WebPDecBufferRegions::RGBA(p) && p.stride == width
                * pixel_bytes(mode)),
    {
        let bpp = bytes_per_pixel(mode);
        let stride = match width.checked_mul(bpp) {
            Some(s) => s,
            None => return None,
        };
        let size = match (stride as usize).checked_mul(height as usize) {
            Some(s) => s,
            None => return None,
        };
        assert(size == luma_len(height as int, stride as int)) by (nonlinear_arith)
            requires
                size == stride * height,
        ;
        Some(
            WebPDecBuffer {
                colorspace: mode,
                width,
                height,
                u: WebPDecBufferRegions::RGBA(WebPRGBABuffer { stride, size }),
            },
        )
    }

    /// The 4:2:0 buffer for a `width` by `height` image whose luma rows are `y_stride`
    /// bytes apart and chroma rows `uv_stride` bytes apart, without alpha. `None` where
    /// the luma rows are narrower than the image or a plane's size does not fit.
    pub fn planar(width: u32, height: u32, y_stride: u32, uv_stride: u32) -> (r: Option<
        WebPDecBuffer,
    >)
        ensures
            r is Some <==> y_stride >= width && luma_len(height as int, y_stride as int)
                <= usize::MAX && chroma_len(height as int, uv_stride as int) <= usize::MAX,
            r matches Some(b) ==> b.wf() && b.colorspace == WEBP_CSP_MODE::MODE_YUV && b.width
                == width && b.height == height && (b.u matches WebPDecBufferRegions::YUVA(p)
                && p.y_stride == y_stride && p.u_stride == uv_stride && p.v_stride == uv_stride),
    {
        if y_stride < width {
            return None;
        }
        let y_size = match (height as usize).checked_mul(y_stride as usize) {
            Some(s) => s,
            None => return None,
        };
        let rows = (height / 2 + height % 2) as usize;
        let uv_size = match rows.checked_mul(uv_stride as usize) {
            Some(s) => s,
            None => return None,
        };
        Some(
            WebPDecBuffer {
                colorspace: WEBP_CSP_MODE::MODE_YUV,
                width,
                height,
                u: WebPDecBufferRegions::YUVA(
                    WebPYUVABuffer {
                        y_stride,
                        u_stride: uv_stride,
                        v_stride: uv_stride,
                        a_stride: 0,
                        y_size,
                        u_size: uv_size,
                        v_size: uv_size,
                        a_size: 0,
                    },
                ),
            },
        )
    }

    /// Whether a packed handle has exactly the size that this buffer describes.
    pub fn holds_packed(&self, b: &WebpBox) -> (r: bool)
        ensures
            r == (self.u matches WebPDecBufferRegions::RGBA(p) && b@.len() == p.size),
    {
        match self.u {
            WebPDecBufferRegions::RGBA(p) => b.len() == p.size,
            WebPDecBufferRegions::YUVA(_) => false,
        }
    }

    /// Whether a three-plane handle has exactly the plane sizes that this buffer describes.
    pub fn holds_planes(&self, b: &WebpYuvBox) -> (r: bool)
        ensures
            r == (self.u matches WebPDecBufferRegions::YUVA(p) && b@.0.len() == p.y_size
                && b@.1.len() == p.u_size && b@.2.len() == p.v_size),
    {
        match self.u {
            WebPDecBufferRegions::YUVA(p) => {
                let (y, u, v) = b.yuv();
                y.len() == p.y_size && u.len() == p.u_size && v.len() == p.v_size
            },
            WebPDecBufferRegions::RGBA(_) => false,
        }
    }
}

} // verus!
