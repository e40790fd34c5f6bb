use vstd::prelude::*;

verus! {

/// The chunk tag read as a little-endian 32-bit word, as it is laid out in a RIFF file.
pub open spec fn fourcc(a: u8, b: u8, c: u8, d: u8) -> int {
    a as int + b as int * 0x100 + c as int * 0x1_0000 + d as int * 0x100_0000
}

/// Packs four tag characters into the 32-bit chunk identifier, first character lowest.
#[allow(non_snake_case)]
pub fn MKFOURCC(a: u8, b: u8, c: u8, d: u8) -> (r: u32)
    ensures
        r as int == fourcc(a, b, c, d),
{
    a as u32 + b as u32 * 0x100 + c as u32 * 0x1_0000 + d as u32 * 0x100_0000
}

/// Major revision (high byte) of a packed `MAJOR.MINOR` ABI version.
pub open spec fn abi_major(v: u16) -> int {
    v as int / 0x100
}

/// Two ABI versions are incompatible when their major revisions differ.
#[allow(non_snake_case)]
pub fn WEBP_ABI_IS_INCOMPATIBLE(a: u16, b: u16) -> (r: bool)
    ensures
        r == (abi_major(a) != abi_major(b)),
{
    a / 0x100 != b / 0x100
}

/// Size of a chunk tag, such as "VP8L".
pub const TAG_SIZE: u32 = 4;
/// Size of a chunk header: tag and payload size.
pub const CHUNK_HEADER_SIZE: u32 = 8;
/// Size of the RIFF header ("RIFFnnnnWEBP").
pub const RIFF_HEADER_SIZE: u32 = 12;
/// Largest canvas width or height (24 bits).
pub const MAX_CANVAS_SIZE: u32 = 0x100_0000;
/// Bound (exclusive) on canvas width times height (32 bits).
pub const MAX_IMAGE_AREA: u64 = 0x1_0000_0000;
/// Bound (exclusive) on the loop count of an animation.
pub const MAX_LOOP_COUNT: u32 = 0x1_0000;

/// Transforms of a lossless bitstream.
#[allow(non_camel_case_types)]
#[derive(Debug, Clone, Copy, PartialEq, Eq, Hash, Structural)]
pub enum VP8LImageTransformType {
    PREDICTOR_TRANSFORM,
    CROSS_COLOR_TRANSFORM,
    SUBTRACT_GREEN,
    COLOR_INDEXING_TRANSFORM,
}

/// Kinds of chunk in a WebP container.
#[allow(non_camel_case_types)]
#[derive(Debug, Clone, Copy, PartialEq, Eq, Hash, Structural)]
pub enum WebPChunkId {
    WEBP_CHUNK_VP8X,
    WEBP_CHUNK_ICCP,
    WEBP_CHUNK_ANIM,
    WEBP_CHUNK_ANMF,
    WEBP_CHUNK_DEPRECATED,
    WEBP_CHUNK_ALPHA,
    /// "VP8 " or "VP8L".
    WEBP_CHUNK_IMAGE,
    WEBP_CHUNK_EXIF,
    WEBP_CHUNK_XMP,
    WEBP_CHUNK_UNKNOWN,
    WEBP_CHUNK_NIL,
}

/// The kind of chunk that a tag names; tags outside the container format are unknown.
/// The tags, in order: "VP8X", "ICCP", "ANIM", "ANMF", "ALPH", "VP8 " or "VP8L",
/// "EXIF", "XMP ".
pub open spec fn chunk_of_tag(tag: int) -> WebPChunkId {
    if tag == fourcc(0x56, 0x50, 0x38, 0x58) {
        WebPChunkId::WEBP_CHUNK_VP8X
    } else if tag == fourcc(0x49, 0x43, 0x43, 0x50) {
        WebPChunkId::WEBP_CHUNK_ICCP
    } else if tag == fourcc(0x41, 0x4e, 0x49, 0x4d) {
        WebPChunkId::WEBP_CHUNK_ANIM
    } else if tag == fourcc(0x41, 0x4e, 0x4d, 0x46) {
        WebPChunkId::WEBP_CHUNK_ANMF
    } else if tag == fourcc(0x41, 0x4c, 0x50, 0x48) {
        WebPChunkId::WEBP_CHUNK_ALPHA
    } else if tag == fourcc(0x56, 0x50, 0x38, 0x20) || tag == fourcc(0x56, 0x50, 0x38, 0x4c) {
        WebPChunkId::WEBP_CHUNK_IMAGE
    } else if tag == fourcc(0x45, 0x58, 0x49, 0x46) {
        WebPChunkId::WEBP_CHUNK_EXIF
    } else if tag == fourcc(0x58, 0x4d, 0x50, 0x20) {
        WebPChunkId::WEBP_CHUNK_XMP
    } else {
        WebPChunkId::WEBP_CHUNK_UNKNOWN
    }
}

impl WebPChunkId {
    /// The kind of chunk that the 32-bit tag `tag` names.
    pub fn from_fourcc(tag: u32) -> (r: WebPChunkId)
        ensures
            r == chunk_of_tag(tag as int),
    {
        if tag == MKFOURCC(0x56, 0x50, 0x38, 0x58) {
            WebPChunkId::WEBP_CHUNK_VP8X
        } else if tag == MKFOURCC(0x49, 0x43, 0x43, 0x50) {
            WebPChunkId::WEBP_CHUNK_ICCP
        } else if tag == MKFOURCC(0x41, 0x4e, 0x49, 0x4d) {
            WebPChunkId::WEBP_CHUNK_ANIM
        } else if tag == MKFOURCC(0x41, 0x4e, 0x4d, 0x46) {
            WebPChunkId::WEBP_CHUNK_ANMF
        } else if tag == MKFOURCC(0x41, 0x4c, 0x50, 0x48) {
            WebPChunkId::WEBP_CHUNK_ALPHA
        } else if tag == MKFOURCC(0x56, 0x50, 0x38, 0x20) || tag == MKFOURCC(0x56, 0x50, 0x38, 0x4c) {
            WebPChunkId::WEBP_CHUNK_IMAGE
        } else if tag == MKFOURCC(0x45, 0x58, 0x49, 0x46) {
            WebPChunkId::WEBP_CHUNK_EXIF
        } else if tag == MKFOURCC(0x58, 0x4d, 0x50, 0x20) {
            WebPChunkId::WEBP_CHUNK_XMP
        } else {
            WebPChunkId::WEBP_CHUNK_UNKNOWN
        }
    }
}

/// Failures of the container muxer.
#[allow(non_camel_case_types)]
#[derive(Debug, Clone, Copy, PartialEq, Eq, Hash, Structural)]
pub enum WebPMuxError {
    WEBP_MUX_OK,
    WEBP_MUX_NOT_FOUND,
    WEBP_MUX_INVALID_ARGUMENT,
    WEBP_MUX_BAD_DATA,
    WEBP_MUX_MEMORY_ERROR,
    WEBP_MUX_NOT_ENOUGH_DATA,
}

/// Whether a canvas of `w` by `h` fits the container's limits.
pub open spec fn canvas_fits(w: u32, h: u32) -> bool {
    1 <= w <= MAX_CANVAS_SIZE && 1 <= h <= MAX_CANVAS_SIZE && w * h < MAX_IMAGE_AREA
}

/// Global parameters of an animation as read back: canvas, background color (in
/// B, G, R, A byte order), loop count (0 is forever) and number of frames.
#[derive(Debug, Clone, Copy, PartialEq, Eq, Hash, Structural)]
pub struct WebPAnimInfo {
    pub canvas_width: u32,
    pub canvas_height: u32,
    pub loop_count: u32,
    pub bgcolor: u32,
    pub frame_count: u32,
}

impl WebPAnimInfo {
    /// Whether the canvas and loop count are within the container's limits.
    pub fn is_valid(&self) -> (r: bool)
        ensures
            r == (canvas_fits(self.canvas_width, self.canvas_height) && self.loop_count
                < MAX_LOOP_COUNT),
    {
        let w = self.canvas_width;
        let h = self.canvas_height;
        if w < 1 || w > MAX_CANVAS_SIZE || h < 1 || h > MAX_CANVAS_SIZE {
            return false;
        }
        assert(w as u64 * h as u64 <= 0x100_0000 * 0x100_0000) by (nonlinear_arith)
            requires
                w <= 0x100_0000,
                h <= 0x100_0000,
        ;
        (w as u64) * (h as u64) < MAX_IMAGE_AREA && self.loop_count < MAX_LOOP_COUNT
    }
}

/// Animation parameters to write: background color (B, G, R, A byte order) and loop
/// count (0 is forever).
#[derive(Debug, Clone, Copy, PartialEq, Eq, Hash, Structural)]
pub struct WebPMuxAnimParams {
    pub bgcolor: u32,
    pub loop_count: i32,
}

impl WebPMuxAnimParams {
    /// Whether the loop count can be written: from 0 up to, not including, 2^16.
    pub fn is_valid(&self) -> (r: bool)
        ensures
            r == (0 <= self.loop_count < MAX_LOOP_COUNT),
    {
        0 <= self.loop_count && self.loop_count < MAX_LOOP_COUNT as i32
    }
}

} // verus!
