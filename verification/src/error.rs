//! The closed error taxonomy and the mapping of native status codes onto it.

use vstd::prelude::*;
use vstd::std_specs::convert::FromSpecImpl;
use vstd::string::StringExecFns;

verus! {

/// Native status code: success.
pub const SUCCESS: i32 = 0;

/// Native status code: input/output error.
pub const ERROR_IO: i32 = -1;

/// Native status code: invalid parameter.
pub const ERROR_INVALID_PARAM: i32 = -2;

/// Native status code: access denied.
pub const ERROR_ACCESS: i32 = -3;

/// Native status code: no such device.
pub const ERROR_NO_DEVICE: i32 = -4;

/// Native status code: entity not found.
pub const ERROR_NOT_FOUND: i32 = -5;

/// Native status code: resource busy.
pub const ERROR_BUSY: i32 = -6;

/// Native status code: operation timed out.
pub const ERROR_TIMEOUT: i32 = -7;

/// Native status code: overflow.
pub const ERROR_OVERFLOW: i32 = -8;

/// Native status code: pipe error.
pub const ERROR_PIPE: i32 = -9;

/// Native status code: system call interrupted.
pub const ERROR_INTERRUPTED: i32 = -10;

/// Native status code: insufficient memory.
pub const ERROR_NO_MEM: i32 = -11;

/// Native status code: operation not supported.
pub const ERROR_NOT_SUPPORTED: i32 = -12;

/// Errors reported by the native USB library.
#[derive(Debug, Copy, Clone, Eq, PartialEq, Structural)]
pub enum Error {
    /// Input/output error.
    Io,
    /// Invalid parameter.
    InvalidParam,
    /// Access denied (insufficient permissions).
    Access,
    /// No such device (it may have been disconnected).
    NoDevice,
    /// Entity not found.
    NotFound,
    /// Resource busy.
    Busy,
    /// Operation timed out.
    Timeout,
    /// Overflow.
    Overflow,
    /// Pipe error.
    Pipe,
    /// System call interrupted (perhaps due to signal).
    Interrupted,
    /// Insufficient memory.
    NoMem,
    /// Operation not supported or unimplemented on this platform.
    NotSupported,
    /// The device returned a malformed descriptor.
    BadDescriptor,
    /// Other error.
    Other,
}

/// The error kind that a native status code stands for. Every code without
/// a kind of its own, positive ones included, is `Other`.
pub open spec fn error_of_code(code: int) -> Error {
    if code == -1 {
        Error::Io
    } else if code == -2 {
        Error::InvalidParam
    } else if code == -3 {
        Error::Access
    } else if code == -4 {
        Error::NoDevice
    } else if code == -5 {
        Error::NotFound
    } else if code == -6 {
        Error::Busy
    } else if code == -7 {
        Error::Timeout
    } else if code == -8 {
        Error::Overflow
    } else if code == -9 {
        Error::Pipe
    } else if code == -10 {
        Error::Interrupted
    } else if code == -11 {
        Error::NoMem
    } else if code == -12 {
        Error::NotSupported
    } else {
        Error::Other
    }
}

/// The fixed human-readable message of each error kind.
pub open spec fn message_of(e: Error) -> Seq<char> {
    match e {
        Error::Io => "Input/Output error"@,
        Error::InvalidParam => "Invalid parameter"@,
        Error::Access => "Access denied (insufficient permissions)"@,
        Error::NoDevice => "No such device (it may have been disconnected)"@,
        Error::NotFound => "Entity not found"@,
        Error::Busy => "Resource busy"@,
        Error::Timeout => "Operation timed out"@,
        Error::Overflow => "Overflow"@,
        Error::Pipe => "Pipe error"@,
        Error::Interrupted => "System call interrupted (perhaps due to signal)"@,
        Error::NoMem => "Insufficient memory"@,
        Error::NotSupported => "Operation not supported or unimplemented on this platform"@,
        Error::BadDescriptor => "Malformed descriptor"@,
        Error::Other => "Other error"@,
    }
}

impl Error {
    /// Maps a native status code to its error kind.
    pub fn from_code(code: i32) -> (e: Error)
        ensures
            e == error_of_code(code as int),
    {
        match code {
            ERROR_IO => Error::Io,
            ERROR_INVALID_PARAM => Error::InvalidParam,
            ERROR_ACCESS => Error::Access,
            ERROR_NO_DEVICE => Error::NoDevice,
            ERROR_NOT_FOUND => Error::NotFound,
            ERROR_BUSY => Error::Busy,
            ERROR_TIMEOUT => Error::Timeout,
            ERROR_OVERFLOW => Error::Overflow,
            ERROR_PIPE => Error::Pipe,
            ERROR_INTERRUPTED => Error::Interrupted,
            ERROR_NO_MEM => Error::NoMem,
            ERROR_NOT_SUPPORTED => Error::NotSupported,
            _ => Error::Other,
        }
    }

    /// The message of this error kind, as a literal.
    pub fn message(&self) -> (m: &'static str)
        ensures
            m@ == message_of(*self),
    {
        match self {
            Error::Io => "Input/Output error",
            Error::InvalidParam => "Invalid parameter",
            Error::Access => "Access denied (insufficient permissions)",
            Error::NoDevice => "No such device (it may have been disconnected)",
            Error::NotFound => "Entity not found",
            Error::Busy => "Resource busy",
            Error::Timeout => "Operation timed out",
            Error::Overflow => "Overflow",
            Error::Pipe => "Pipe error",
            Error::Interrupted => "System call interrupted (perhaps due to signal)",
            Error::NoMem => "Insufficient memory",
            Error::NotSupported => "Operation not supported or unimplemented on this platform",
            Error::BadDescriptor => "Malformed descriptor",
            Error::Other => "Other error",
        }
    }

    /// The message of this error kind, as an owned string.
    pub fn to_string(&self) -> (s: String)
        ensures
            s@ == message_of(*self),
    {
        String::from_str(self.message())
    }
}

impl From<i32> for Error {
    fn from(code: i32) -> (e: Error) {
        Error::from_code(code)
    }
}

impl FromSpecImpl<i32> for Error {
    open spec fn obeys_from_spec() -> bool {
        true
    }

    open spec fn from_spec(code: i32) -> Error {
        error_of_code(code as int)
    }
}

/// What a native call that returns a count or a negative status yields:
/// the count where the value is non-negative, else the error it stands for.
pub open spec fn count_or_error(res: int) -> Result<usize, Error> {
    if res >= 0 {
        Ok(res as usize)
    } else {
        Err(error_of_code(res))
    }
}

/// What a native call that returns a bare status yields: success on zero,
/// else the error the status stands for.
pub open spec fn unit_or_error(status: int) -> Result<(), Error> {
    if status == 0 {
        Ok(())
    } else {
        Err(error_of_code(status))
    }
}

/// Converts the return value of a native call into a count or an error.
pub fn usb_result(res: i32) -> (r: Result<usize, Error>)
    ensures
        r == count_or_error(res as int),
{
    if res >= 0 {
        Ok(res as usize)
    } else {
        Err(Error::from(res))
    }
}

/// Converts the status of a native call into success or an error. Only zero
/// is success: a positive status is reported as `Other`.
pub fn check_status(status: i32) -> (r: Result<(), Error>)
    ensures
        r == unit_or_error(status as int),
{
    if status == SUCCESS {
        Ok(())
    } else {
        Err(Error::from(status))
    }
}

} // verus!
