use vstd::prelude::*;

verus! {

/// The error kinds of the connector.
///
/// Errors that originate in outside libraries (I/O, HTTP, websocket, JSON, RON)
/// carry the rendered message of the underlying error.
#[derive(Debug, Clone, PartialEq, Eq)]
pub enum OdinSentinelError {
    IOError(String),
    ConfigParseError(String),
    HttpError(String),
    HttpHeaderError(String),
    UrlParseError(String),
    WsError(String),
    WsProtocolError(String),
    WsClosedError,
    ActorError(String),
    JsonError(String),
    RonError(String),
    NoDataError(String),
    NoSuchDeviceError(String),
    /// a generic error
    OpFailed(String),
}

pub type Result<T> = core::result::Result<T, OdinSentinelError>;

/// The error for a query that returned no records.
pub fn no_data(msg: &str) -> (r: OdinSentinelError)
    ensures
        r is NoDataError,
        r->NoDataError_0@ == msg@,
{
    OdinSentinelError::NoDataError(msg.to_owned())
}

/// The catch-all error for a failed operation.
pub fn op_failed(msg: &str) -> (r: OdinSentinelError)
    ensures
        r is OpFailed,
        r->OpFailed_0@ == msg@,
{
    OdinSentinelError::OpFailed(msg.to_owned())
}

} // verus!
