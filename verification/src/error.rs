//! The typed errors that native status codes are translated into.

use vstd::prelude::*;

verus! {

/// The native layer's code for success.
pub const GP_OK: i32 = 0;

/// The native layer's code for an argument it cannot accept.
pub const GP_ERROR_BAD_PARAMETERS: i32 = -2;

/// The native layer's code for an allocation that failed.
pub const GP_ERROR_NO_MEMORY: i32 = -3;

/// The native layer's code for a port that no list entry matches.
pub const GP_ERROR_UNKNOWN_PORT: i32 = -5;

/// The native layer's code for a feature that the device or driver lacks.
pub const GP_ERROR_NOT_SUPPORTED: i32 = -6;

/// The native layer's code for data that cannot be interpreted.
pub const GP_ERROR_CORRUPTED_DATA: i32 = -102;

/// The native layer's code for a file that is already there.
pub const GP_ERROR_FILE_EXISTS: i32 = -103;

/// The native layer's code for a failure of the operating system.
pub const GP_ERROR_OS_FAILURE: i32 = -114;

/// The kinds of failure that callers can tell apart.
#[derive(Clone, Copy, Debug, PartialEq, Eq, Hash, Structural)]
pub enum ErrorKind {
    /// A value was supplied that the native interface cannot represent,
    /// such as a string with an embedded NUL byte.
    BadParameters,
    /// Exclusive creation was asked for a path that is occupied.
    FileExists,
    /// The device or its driver does not offer what was asked for.
    NotSupported,
    /// Text handed back by the native layer is not valid UTF-8.
    CorruptedData,
    /// A lookup by name, path or index found no entry.
    NotFound,
    /// Any other failure of the native layer.
    IoFailure,
}

/// A failed operation: its kind, the native status code, and the message
/// that was pending on the context when the failure was translated.
#[derive(Clone, Debug, PartialEq, Eq)]
pub struct Error {
    kind: ErrorKind,
    code: i32,
    message: Option<String>,
}

/// What an `Error` holds, as plain values.
pub ghost struct ErrorView {
    pub kind: ErrorKind,
    pub code: i32,
    pub message: Option<Seq<char>>,
}

/// Whether a native status code reports success: every non-negative code does.
pub open spec fn is_success(status: i32) -> bool {
    status >= 0
}

/// The kind that the native code `code` is translated to.
pub open spec fn kind_of(code: i32) -> ErrorKind {
    if code == GP_ERROR_BAD_PARAMETERS {
        ErrorKind::BadParameters
    } else if code == GP_ERROR_FILE_EXISTS {
        ErrorKind::FileExists
    } else if code == GP_ERROR_NOT_SUPPORTED {
        ErrorKind::NotSupported
    } else if code == GP_ERROR_CORRUPTED_DATA {
        ErrorKind::CorruptedData
    } else if code == GP_ERROR_UNKNOWN_PORT {
        ErrorKind::NotFound
    } else {
        ErrorKind::IoFailure
    }
}

/// The error that the native code `code` becomes, with `message` attached.
pub open spec fn native_error(code: i32, message: Option<Seq<char>>) -> ErrorView {
    ErrorView { kind: kind_of(code), code, message }
}

/// The view of an optional message.
pub open spec fn message_view(message: Option<String>) -> Option<Seq<char>> {
    match message {
        Some(text) => Some(text@),
        None => None,
    }
}

/// Whether `r` is the failure `expected`.
pub open spec fn fails_with<T>(r: Result<T, Error>, expected: ErrorView) -> bool {
    r matches Err(e) && e@ == expected
}

impl View for Error {
    type V = ErrorView;

    closed spec fn view(&self) -> ErrorView {
        ErrorView { kind: self.kind, code: self.code, message: message_view(self.message) }
    }
}

impl Error {
    /// An error of the given kind and code, without a message.
    pub fn new(kind: ErrorKind, code: i32) -> (e: Error)
        ensures
            e@ == (ErrorView { kind, code, message: None }),
    {
        Error { kind, code, message: None }
    }

    /// The same error with `message` in place of its message.
    pub fn with_message(self, message: Option<String>) -> (e: Error)
        ensures
            e@ == (ErrorView { message: message_view(message), ..self@ }),
    {
        Error { kind: self.kind, code: self.code, message }
    }

    /// The kind of this error.
    pub fn kind(&self) -> (k: ErrorKind)
        ensures
            k == self@.kind,
    {
        self.kind
    }

    /// The native status code of this error.
    pub fn code(&self) -> (c: i32)
        ensures
            c == self@.code,
    {
        self.code
    }

    /// The message of this error, where one was available.
    pub fn message(&self) -> (m: &Option<String>)
        ensures
            message_view(*m) == self@.message,
    {
        &self.message
    }
}

/// The kind that a native status code stands for.
pub fn kind_from_code(code: i32) -> (k: ErrorKind)
    ensures
        k == kind_of(code),
{
    if code == GP_ERROR_BAD_PARAMETERS {
        ErrorKind::BadParameters
    } else if code == GP_ERROR_FILE_EXISTS {
        ErrorKind::FileExists
    } else if code == GP_ERROR_NOT_SUPPORTED {
        ErrorKind::NotSupported
    } else if code == GP_ERROR_CORRUPTED_DATA {
        ErrorKind::CorruptedData
    } else if code == GP_ERROR_UNKNOWN_PORT {
        ErrorKind::NotFound
    } else {
        ErrorKind::IoFailure
    }
}

/// Translates a native status code into an error that carries the code.
pub fn from_libgphoto2(code: i32) -> (e: Error)
    ensures
        e@ == native_error(code, None),
{
    Error::new(kind_from_code(code), code)
}

/// Turns the status code of a native call into a result: a non-negative
/// code is success, a negative one the error it is translated to.
pub fn check(status: i32) -> (r: Result<(), Error>)
    ensures
        is_success(status) ==> r is Ok,
        !is_success(status) ==> fails_with(r, native_error(status, None)),
{
    if status >= 0 {
        Ok(())
    } else {
        Err(from_libgphoto2(status))
    }
}

} // verus!
