//! Failure values of the codec calls and their classification.
use vstd::prelude::*;

verus! {

/// A failure that says nothing more than that the call failed.
#[derive(Debug, Clone, Copy, PartialEq, Eq, PartialOrd, Ord, Hash, Structural)]
pub struct WebPSimpleError;

/// Status codes that the native decoder reports.
#[allow(non_camel_case_types)]
#[derive(Debug, Clone, Copy, PartialEq, Eq, PartialOrd, Ord, Hash, Structural)]
pub enum VP8StatusCode {
    VP8_STATUS_OK,
    VP8_STATUS_OUT_OF_MEMORY,
    VP8_STATUS_INVALID_PARAM,
    VP8_STATUS_BITSTREAM_ERROR,
    VP8_STATUS_UNSUPPORTED_FEATURE,
    VP8_STATUS_SUSPENDED,
    VP8_STATUS_USER_ABORT,
    VP8_STATUS_NOT_ENOUGH_DATA,
}

/// The numeric value of a status code in the native interface.
pub open spec fn status_value(s: VP8StatusCode) -> u32 {
    match s {
        VP8StatusCode::VP8_STATUS_OK => 0,
        VP8StatusCode::VP8_STATUS_OUT_OF_MEMORY => 1,
        VP8StatusCode::VP8_STATUS_INVALID_PARAM => 2,
        VP8StatusCode::VP8_STATUS_BITSTREAM_ERROR => 3,
        VP8StatusCode::VP8_STATUS_UNSUPPORTED_FEATURE => 4,
        VP8StatusCode::VP8_STATUS_SUSPENDED => 5,
        VP8StatusCode::VP8_STATUS_USER_ABORT => 6,
        VP8StatusCode::VP8_STATUS_NOT_ENOUGH_DATA => 7,
    }
}

impl VP8StatusCode {
    /// The status code with the given numeric value, if there is one.
    pub fn from_raw(raw: u32) -> (r: Option<VP8StatusCode>)
        ensures
            r matches Some(s) ==> status_value(s) == raw,
            r is None <==> raw > 7,
    {
        match raw {
            0 => Some(VP8StatusCode::VP8_STATUS_OK),
            1 => Some(VP8StatusCode::VP8_STATUS_OUT_OF_MEMORY),
            2 => Some(VP8StatusCode::VP8_STATUS_INVALID_PARAM),
            3 => Some(VP8StatusCode::VP8_STATUS_BITSTREAM_ERROR),
            4 => Some(VP8StatusCode::VP8_STATUS_UNSUPPORTED_FEATURE),
            5 => Some(VP8StatusCode::VP8_STATUS_SUSPENDED),
            6 => Some(VP8StatusCode::VP8_STATUS_USER_ABORT),
            7 => Some(VP8StatusCode::VP8_STATUS_NOT_ENOUGH_DATA),
            _ => None,
        }
    }

    /// The numeric value of this status code.
    pub fn into_raw(self) -> (r: u32)
        ensures
            r == status_value(self),
    {
        match self {
            VP8StatusCode::VP8_STATUS_OK => 0,
            VP8StatusCode::VP8_STATUS_OUT_OF_MEMORY => 1,
            VP8StatusCode::VP8_STATUS_INVALID_PARAM => 2,
            VP8StatusCode::VP8_STATUS_BITSTREAM_ERROR => 3,
            VP8StatusCode::VP8_STATUS_UNSUPPORTED_FEATURE => 4,
            VP8StatusCode::VP8_STATUS_SUSPENDED => 5,
            VP8StatusCode::VP8_STATUS_USER_ABORT => 6,
            VP8StatusCode::VP8_STATUS_NOT_ENOUGH_DATA => 7,
        }
    }
}

/// Why a decode or encode failed.
#[derive(Debug, Clone, Copy, PartialEq, Eq, Hash, Structural)]
pub enum WebPError {
    OutOfMemory,
    InvalidParam,
    BitstreamError,
    UnsupportedFeature,
    /// More input is needed before decoding can go on.
    Suspended,
    UserAbort,
    NotEnoughData,
    /// The call reports only that it failed.
    Unclassified,
}

/// The failure that a status code other than OK stands for.
pub open spec fn error_of_status(s: VP8StatusCode) -> WebPError {
    match s {
        VP8StatusCode::VP8_STATUS_OK => WebPError::Unclassified,
        VP8StatusCode::VP8_STATUS_OUT_OF_MEMORY => WebPError::OutOfMemory,
        VP8StatusCode::VP8_STATUS_INVALID_PARAM => WebPError::InvalidParam,
        VP8StatusCode::VP8_STATUS_BITSTREAM_ERROR => WebPError::BitstreamError,
        VP8StatusCode::VP8_STATUS_UNSUPPORTED_FEATURE => WebPError::UnsupportedFeature,
        VP8StatusCode::VP8_STATUS_SUSPENDED => WebPError::Suspended,
        VP8StatusCode::VP8_STATUS_USER_ABORT => WebPError::UserAbort,
        VP8StatusCode::VP8_STATUS_NOT_ENOUGH_DATA => WebPError::NotEnoughData,
    }
}

/// The status code that a failure carries; the unclassified failure carries none.
pub open spec fn status_of_error(e: WebPError) -> Option<VP8StatusCode> {
    match e {
        WebPError::OutOfMemory => Some(VP8StatusCode::VP8_STATUS_OUT_OF_MEMORY),
        WebPError::InvalidParam => Some(VP8StatusCode::VP8_STATUS_INVALID_PARAM),
        WebPError::BitstreamError => Some(VP8StatusCode::VP8_STATUS_BITSTREAM_ERROR),
        WebPError::UnsupportedFeature => Some(VP8StatusCode::VP8_STATUS_UNSUPPORTED_FEATURE),
        WebPError::Suspended => Some(VP8StatusCode::VP8_STATUS_SUSPENDED),
        WebPError::UserAbort => Some(VP8StatusCode::VP8_STATUS_USER_ABORT),
        WebPError::NotEnoughData => Some(VP8StatusCode::VP8_STATUS_NOT_ENOUGH_DATA),
        WebPError::Unclassified => None,
    }
}

/// Turns a status code into a result: OK succeeds, every other code fails with
/// the failure it stands for.
pub fn check_status(s: VP8StatusCode) -> (r: Result<(), WebPError>)
    ensures
        r is Ok <==> s == VP8StatusCode::VP8_STATUS_OK,
        r matches Err(e) ==> e == error_of_status(s),
{
    match s {
        VP8StatusCode::VP8_STATUS_OK => Ok(()),
        VP8StatusCode::VP8_STATUS_OUT_OF_MEMORY => Err(WebPError::OutOfMemory),
        VP8StatusCode::VP8_STATUS_INVALID_PARAM => Err(WebPError::InvalidParam),
        VP8StatusCode::VP8_STATUS_BITSTREAM_ERROR => Err(WebPError::BitstreamError),
        VP8StatusCode::VP8_STATUS_UNSUPPORTED_FEATURE => Err(WebPError::UnsupportedFeature),
        VP8StatusCode::VP8_STATUS_SUSPENDED => Err(WebPError::Suspended),
        VP8StatusCode::VP8_STATUS_USER_ABORT => Err(WebPError::UserAbort),
        VP8StatusCode::VP8_STATUS_NOT_ENOUGH_DATA => Err(WebPError::NotEnoughData),
    }
}

impl WebPError {
    /// The failure of a call that reports no status.
    pub fn from_simple(_e: WebPSimpleError) -> (r: WebPError)
        ensures
            r == WebPError::Unclassified,
    {
        WebPError::Unclassified
    }

    /// The status code that this failure carries, if any.
    pub fn status(&self) -> (r: Option<VP8StatusCode>)
        ensures
            r == status_of_error(*self),
    {
        match self {
            WebPError::OutOfMemory => Some(VP8StatusCode::VP8_STATUS_OUT_OF_MEMORY),
            WebPError::InvalidParam => Some(VP8StatusCode::VP8_STATUS_INVALID_PARAM),
            WebPError::BitstreamError => Some(VP8StatusCode::VP8_STATUS_BITSTREAM_ERROR),
            WebPError::UnsupportedFeature => Some(VP8StatusCode::VP8_STATUS_UNSUPPORTED_FEATURE),
            WebPError::Suspended => Some(VP8StatusCode::VP8_STATUS_SUSPENDED),
            WebPError::UserAbort => Some(VP8StatusCode::VP8_STATUS_USER_ABORT),
            WebPError::NotEnoughData => Some(VP8StatusCode::VP8_STATUS_NOT_ENOUGH_DATA),
            WebPError::Unclassified => None,
        }
    }

    /// Whether the input itself is malformed or cut short.
    pub fn is_malformed_input(&self) -> (r: bool)
        ensures
            r == (*self == WebPError::BitstreamError || *self == WebPError::NotEnoughData),
    {
        match self {
            WebPError::BitstreamError | WebPError::NotEnoughData => true,
            _ => false,
        }
    }

    /// Whether a well-formed input met a limit: memory, or a feature the codec lacks.
    pub fn is_limit(&self) -> (r: bool)
        ensures
            r == (*self == WebPError::OutOfMemory || *self == WebPError::UnsupportedFeature),
    {
        match self {
            WebPError::OutOfMemory | WebPError::UnsupportedFeature => true,
            _ => false,
        }
    }

    /// A short description of the failure.
    pub fn message(&self) -> (r: &'static str)
    {
        match self {
            WebPError::OutOfMemory => "out of memory",
            WebPError::InvalidParam => "invalid parameter",
            WebPError::BitstreamError => "bitstream error",
            WebPError::UnsupportedFeature => "unsupported feature",
            WebPError::Suspended => "suspended: more data is needed",
            WebPError::UserAbort => "aborted by the user",
            WebPError::NotEnoughData => "not enough data",
            WebPError::Unclassified => "WebP format error",
        }
    }
}

/// Every failure that a status code maps to carries that status code back, and
/// OK is the only code that maps to success.
pub proof fn lemma_status_round_trip(s: VP8StatusCode)
    ensures
        s != VP8StatusCode::VP8_STATUS_OK ==> status_of_error(error_of_status(s)) == Some(s),
        status_of_error(WebPError::Unclassified) is None,
{
}

} // verus!
