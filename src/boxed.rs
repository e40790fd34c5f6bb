//! Owning handles over memory that the native codec allocated.
//!
//! A `WebpBox` is the sole owner of one native allocation and releases it exactly
//! once, when it is dropped; `into_raw` hands the allocation on instead. A
//! `WebpYuvBox` holds the three planes of one decode, of which only the luma plane
//! heads the allocation: the chroma planes are views inside it and own nothing.
use vstd::prelude::*;

use crate::native::{
    native_bytes, native_chroma_u, native_chroma_v, native_into_luma, native_luma,
    native_planes, native_planes_mut, native_slice, native_slice_mut,
};

use libwebp::boxed::WebpBox as NativeBox;
use libwebp::boxed::WebpYuvBox as NativeYuvBox;

verus! {

/// Sole owner of a byte buffer from the native allocator.
#[derive(Debug)]
pub struct WebpBox {
    raw: NativeBox<[u8]>,
}

impl View for WebpBox {
    type V = Seq<u8>;

    closed spec fn view(&self) -> Seq<u8> {
        native_bytes(self.raw)
    }
}

impl WebpBox {
    /// Takes over a native buffer; its release becomes this handle's duty.
    pub fn from_raw(raw: NativeBox<[u8]>) -> (r: WebpBox)
        ensures
            r@ == native_bytes(raw),
    {
        WebpBox { raw }
    }

    /// Gives up this handle without releasing anything: the native buffer, and the
    /// duty to release it, pass to the caller.
    pub fn into_raw(b: WebpBox) -> (r: NativeBox<[u8]>)
        ensures
            native_bytes(r) == b@,
    {
        b.raw
    }

    /// Number of bytes in the buffer.
    pub fn len(&self) -> (r: usize)
        ensures
            r == self@.len(),
    {
        native_slice(&self.raw).len()
    }

    /// Whether the buffer holds no byte.
    pub fn is_empty(&self) -> (r: bool)
        ensures
            r == (self@.len() == 0),
    {
        self.len() == 0
    }

    /// Read-only view of the whole buffer.
    pub fn as_slice(&self) -> (r: &[u8])
        ensures
            r@ == self@,
    {
        native_slice(&self.raw)
    }

    /// Writable view of the whole buffer; writes through it land in the buffer.
    pub fn as_mut_slice(&mut self) -> (r: &mut [u8])
        ensures
            r@ == old(self)@,
            final(self)@ == final(r)@,
    {
        native_slice_mut(&mut self.raw)
    }

    /// The byte at `i`, or `None` past the end of the buffer.
    pub fn get(&self, i: usize) -> (r: Option<u8>)
        ensures
            i < self@.len() ==> r == Some(self@[i as int]),
            i >= self@.len() ==> r is None,
    {
        let s = native_slice(&self.raw);
        if i < s.len() {
            Some(s[i])
        } else {
            None
        }
    }

    /// A copy of the buffer in memory of the Rust allocator.
    pub fn to_vec(&self) -> (r: Vec<u8>)
        ensures
            r@ == self@,
    {
        let s = native_slice(&self.raw);
        let mut out: Vec<u8> = Vec::with_capacity(s.len());
        let mut i: usize = 0;
        while i < s.len()
            invariant
                s@ == self@,
                i <= s@.len(),
                out@ == s@.subrange(0, i as int),
            decreases s@.len() - i,
        {
            out.push(s[i]);
            i = i + 1;
        }
        assert(out@ == s@);
        out
    }
}

/// The three planes of a YUV decode; only the luma plane owns the allocation.
#[derive(Debug)]
pub struct WebpYuvBox {
    raw: NativeYuvBox,
}

impl View for WebpYuvBox {
    type V = (Seq<u8>, Seq<u8>, Seq<u8>);

    closed spec fn view(&self) -> (Seq<u8>, Seq<u8>, Seq<u8>) {
        (native_luma(self.raw), native_chroma_u(self.raw), native_chroma_v(self.raw))
    }
}

impl WebpYuvBox {
    /// Takes over a native three-plane buffer.
    pub fn from_raw_yuv(raw: NativeYuvBox) -> (r: WebpYuvBox)
        ensures
            r@ == (native_luma(raw), native_chroma_u(raw), native_chroma_v(raw)),
    {
        WebpYuvBox { raw }
    }

    /// Gives up this handle without releasing anything: the native buffer, and the
    /// duty to release its luma allocation, pass to the caller.
    pub fn into_raw_yuv(self) -> (r: NativeYuvBox)
        ensures
            (native_luma(r), native_chroma_u(r), native_chroma_v(r)) == self@,
    {
        self.raw
    }

    /// The luma plane.
    pub fn y(&self) -> (r: &[u8])
        ensures
            r@ == self@.0,
    {
        native_planes(&self.raw).0
    }

    /// The chroma U plane.
    pub fn u(&self) -> (r: &[u8])
        ensures
            r@ == self@.1,
    {
        native_planes(&self.raw).1
    }

    /// The chroma V plane.
    pub fn v(&self) -> (r: &[u8])
        ensures
            r@ == self@.2,
    {
        native_planes(&self.raw).2
    }

    /// The luma plane, writable; writes land in the handle's luma plane.
    pub fn y_mut(&mut self) -> (r: &mut [u8])
        ensures
            r@ == old(self)@.0,
            final(self)@ == (final(r)@, old(self)@.1, old(self)@.2),
    {
        native_planes_mut(&mut self.raw).0
    }

    /// The chroma U plane, writable; writes land in the handle's U plane.
    pub fn u_mut(&mut self) -> (r: &mut [u8])
        ensures
            r@ == old(self)@.1,
            final(self)@ == (old(self)@.0, final(r)@, old(self)@.2),
    {
        native_planes_mut(&mut self.raw).1
    }

    /// The chroma V plane, writable; writes land in the handle's V plane.
    pub fn v_mut(&mut self) -> (r: &mut [u8])
        ensures
            r@ == old(self)@.2,
            final(self)@ == (old(self)@.0, old(self)@.1, final(r)@),
    {
        native_planes_mut(&mut self.raw).2
    }

    /// The three planes at once.
    pub fn yuv(&self) -> (r: (&[u8], &[u8], &[u8]))
        ensures
            r.0@ == self@.0,
            r.1@ == self@.1,
            r.2@ == self@.2,
    {
        native_planes(&self.raw)
    }

    /// The three planes at once, each writable.
    pub fn yuv_mut(&mut self) -> (r: (&mut [u8], &mut [u8], &mut [u8]))
        ensures
            r.0@ == old(self)@.0,
            r.1@ == old(self)@.1,
            r.2@ == old(self)@.2,
            final(self)@ == (final(r.0)@, final(r.1)@, final(r.2)@),
    {
        native_planes_mut(&mut self.raw)
    }

    /// Keeps the luma plane alone, as a buffer that now owns the allocation; the
    /// chroma views are dropped without any release.
    pub fn into_y(self) -> (r: WebpBox)
        ensures
            r@ == self@.0,
    {
        WebpBox { raw: native_into_luma(self.raw) }
    }
}

} // verus!
