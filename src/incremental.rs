//! Incremental decoding: input arrives in pieces, and each piece is answered with
//! the decoder's status, which is mapped to success or to the failure it names.
//! "Suspended" means that the decoder waits for more input; nothing is retried here.
use vstd::prelude::*;

use crate::colorspace::{is_rgb, WEBP_CSP_MODE};
use crate::error::{check_status, error_of_status, status_of_error, VP8StatusCode, WebPError};
use crate::native::{native_incremental_append, native_incremental_new, native_incremental_rows};

use libwebp::WebPIDecoder as NativeIncremental;

verus! {

/// An incremental decoder into a packed colorspace.
pub struct WebPIDecoder {
    raw: NativeIncremental,
    mode: WEBP_CSP_MODE,
    input: Ghost<Seq<u8>>,
}

/// The rows that an incremental decoder has produced so far.
#[derive(Debug)]
pub struct DecodedRows {
    /// Number of complete rows.
    pub last_y: u32,
    pub width: u32,
    pub height: u32,
    pub stride: u32,
    /// `stride` bytes for each complete row.
    pub rows: Vec<u8>,
}

impl WebPIDecoder {
    /// Every byte handed to the decoder so far, in order.
    pub closed spec fn input(&self) -> Seq<u8> {
        self.input@
    }

    /// The colorspace that the decoder writes.
    pub closed spec fn mode(&self) -> WEBP_CSP_MODE {
        self.mode
    }

    /// A decoder that writes `mode`; `None` for a YUV mode, which needs planes.
    pub fn new(mode: WEBP_CSP_MODE) -> (r: Option<WebPIDecoder>)
        ensures
            r is Some <==> is_rgb(mode),
            r matches Some(d) ==> d.mode() == mode && d.input() == Seq::<u8>::empty(),
    {
        let raw_mode = mode.into_raw();
        if raw_mode > 10 {
            return None;
        }
        Some(WebPIDecoder { raw: native_incremental_new(raw_mode), mode, input: Ghost(Seq::empty()) })
    }

    /// The colorspace that the decoder writes.
    pub fn colorspace(&self) -> (r: WEBP_CSP_MODE)
        ensures
            r == self.mode(),
    {
        self.mode
    }

    /// Hands the next piece of input to the decoder. Success means the image is
    /// complete; `Suspended` that more input is awaited; any other failure carries
    /// the status the decoder reported. An empty piece is refused as an invalid
    /// parameter and not handed on.
    pub fn append(&mut self, data: &[u8]) -> (r: Result<(), WebPError>)
        ensures
            final(self).mode() == old(self).mode(),
            data@.len() == 0 ==> r == Err::<(), WebPError>(WebPError::InvalidParam)
                && final(self).input() == old(self).input(),
            data@.len() > 0 ==> final(self).input() == old(self).input() + data@,
            r matches Err(e) ==> status_of_error(e) is Some,
    {
        if data.len() == 0 {
            return Err(WebPError::InvalidParam);
        }
        let code = native_incremental_append(&mut self.raw, data);
        self.input = Ghost(self.input@ + data@);
        let s = VP8StatusCode::from_raw(code).unwrap();
        let r = check_status(s);
        proof {
            if r is Err {
                assert(status_of_error(error_of_status(s)) == Some(s));
            }
        }
        r
    }

    /// The rows decoded so far, once the header has been read.
    pub fn decoded_rows(&self) -> (r: Option<DecodedRows>)
        ensures
            r matches Some(d) ==> d.rows@.len() == d.stride * d.last_y,
    {
        match native_incremental_rows(&self.raw) {
            Some((last_y, width, height, stride, rows)) => Some(
                DecodedRows { last_y, width, height, stride, rows },
            ),
            None => None,
        }
    }
}

} // verus!
