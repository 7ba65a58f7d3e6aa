//! Error codes reported to the script, and the classification of transport
//! failures into them.

use vstd::prelude::*;

verus! {

/// The error codes delivered to script callbacks (mirrored in the Pawn include).
#[derive(Clone, Copy, Debug, PartialEq, Eq, Structural)]
pub enum ErrorCode {
    NoError,
    BadUrl,
    TlsHandshake,
    NoSocket,
    CantConnect,
    SendFail,
    ContentTooBig,
    Timeout,
    PolicyBlocked,
    Unknown,
}

/// The number of each code, as the Pawn include declares it.
pub open spec fn code_value(e: ErrorCode) -> i32 {
    match e {
        ErrorCode::NoError => 0,
        ErrorCode::BadUrl => 1,
        ErrorCode::TlsHandshake => 2,
        ErrorCode::NoSocket => 3,
        ErrorCode::CantConnect => 4,
        ErrorCode::SendFail => 5,
        ErrorCode::ContentTooBig => 6,
        ErrorCode::Timeout => 7,
        ErrorCode::PolicyBlocked => 8,
        ErrorCode::Unknown => 10,
    }
}

impl ErrorCode {
    /// The code's number.
    pub fn as_i32(self) -> (r: i32)
        ensures
            r == code_value(self),
    {
        match self {
            ErrorCode::NoError => 0,
            ErrorCode::BadUrl => 1,
            ErrorCode::TlsHandshake => 2,
            ErrorCode::NoSocket => 3,
            ErrorCode::CantConnect => 4,
            ErrorCode::SendFail => 5,
            ErrorCode::ContentTooBig => 6,
            ErrorCode::Timeout => 7,
            ErrorCode::PolicyBlocked => 8,
            ErrorCode::Unknown => 10,
        }
    }
}

/// The kinds of I/O failure that the classification tells apart; every
/// other kind is `Other`.
#[derive(Clone, Copy, Debug, PartialEq, Eq, Structural)]
pub enum IoErrorKind {
    TimedOut,
    BrokenPipe,
    WriteZero,
    ConnectionRefused,
    NotConnected,
    AddrNotAvailable,
    NetworkUnreachable,
    HostUnreachable,
    Other,
}

/// The code reported for an I/O failure of kind `k`.
pub open spec fn io_error_code(k: IoErrorKind) -> ErrorCode {
    match k {
        IoErrorKind::TimedOut => ErrorCode::Timeout,
        IoErrorKind::BrokenPipe | IoErrorKind::WriteZero => ErrorCode::SendFail,
        IoErrorKind::ConnectionRefused => ErrorCode::CantConnect,
        IoErrorKind::NotConnected | IoErrorKind::AddrNotAvailable
        | IoErrorKind::NetworkUnreachable | IoErrorKind::HostUnreachable => ErrorCode::NoSocket,
        IoErrorKind::Other => ErrorCode::Unknown,
    }
}

/// Classifies an I/O failure.
pub fn map_io_error(kind: IoErrorKind) -> (r: ErrorCode)
    ensures
        r == io_error_code(kind),
{
    match kind {
        IoErrorKind::TimedOut => ErrorCode::Timeout,
        IoErrorKind::BrokenPipe | IoErrorKind::WriteZero => ErrorCode::SendFail,
        IoErrorKind::ConnectionRefused => ErrorCode::CantConnect,
        IoErrorKind::NotConnected | IoErrorKind::AddrNotAvailable
        | IoErrorKind::NetworkUnreachable | IoErrorKind::HostUnreachable => ErrorCode::NoSocket,
        IoErrorKind::Other => ErrorCode::Unknown,
    }
}

/// What the HTTP client reported about a failed send: its own flags, and the
/// kind of the first I/O error in the chain of causes, if there is one.
#[derive(Clone, Copy, Debug)]
pub struct RequestErrorInfo {
    pub is_timeout: bool,
    pub is_builder: bool,
    pub io_kind: Option<IoErrorKind>,
    pub is_connect: bool,
    pub is_status: bool,
}

/// The code reported for a failed send, by precedence: a timeout, then a
/// request the client could not build from the URL, then the underlying I/O
/// failure, then a connection failure, then an HTTP status error.
pub open spec fn request_error_code(e: RequestErrorInfo) -> ErrorCode {
    if e.is_timeout {
        ErrorCode::Timeout
    } else if e.is_builder {
        ErrorCode::BadUrl
    } else if e.io_kind is Some {
        io_error_code(e.io_kind->0)
    } else if e.is_connect {
        ErrorCode::TlsHandshake
    } else if e.is_status {
        ErrorCode::NoError
    } else {
        ErrorCode::Unknown
    }
}

/// Classifies a failed send.
pub fn map_reqwest_error(e: &RequestErrorInfo) -> (r: ErrorCode)
    ensures
        r == request_error_code(*e),
{
    if e.is_timeout {
        return ErrorCode::Timeout;
    }
    if e.is_builder {
        return ErrorCode::BadUrl;
    }
    if let Some(k) = e.io_kind {
        return map_io_error(k);
    }
    if e.is_connect {
        return ErrorCode::TlsHandshake;
    }
    if e.is_status {
        return ErrorCode::NoError;
    }
    ErrorCode::Unknown
}

} // verus!
