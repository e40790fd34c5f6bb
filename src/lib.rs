//! Ownership-checked access to the output of the native WebP codec.
//!
//! Memory that the native allocator hands back is held by single-owner handles
//! (`boxed`) that release it exactly once; every codec call (`decode`, `encode`,
//! `incremental`) either builds such a handle or reports a failure from a closed
//! classification (`error`), never both. The sizes of output buffers are described
//! from dimensions and colorspace alone (`layout`, `colorspace`). `image_io` holds
//! the decisions of reading and writing images as pixel buffers, `format` and
//! `memory` the container's constants and byte buffers, and `native` everything
//! taken on trust from the `libwebp` crate.
use vstd::prelude::*;

pub mod boxed;
pub mod colorspace;
pub mod decode;
pub mod encode;
pub mod error;
pub mod format;
pub mod image_io;
pub mod incremental;
pub mod laws;
pub mod layout;
pub mod memory;
pub mod native;

verus! {

} // verus!
