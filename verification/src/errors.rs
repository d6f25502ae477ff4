//! The error taxonomy: the closed set of native status codes, the task that
//! was being attempted when a call failed, and the structured error value that
//! every native status is translated into before it reaches a caller.
use vstd::prelude::*;

use crate::FileMode;

verus! {

/// Error codes returned from the native codec's status enumeration.
#[derive(Debug, Clone, Copy, PartialEq, Eq, Structural)]
pub enum ErrorCode {
    /// No error, the native call returned successfully
    ExdrOk,
    /// File had a corrupt header
    ExdrHeader,
    /// Failed to read a string where expected
    ExdrString,
    /// Failed to read a double where expected
    ExdrDouble,
    /// Failed to read an int where expected
    ExdrInt,
    /// Failed to read a float where expected
    ExdrFloat,
    /// Failed to read an unsigned int where expected
    ExdrUint,
    /// Failed to read compressed coordinates
    Exdr3dx,
    /// Error encountered while closing a file
    ExdrClose,
    /// File had an incorrect magic number
    ExdrMagic,
    /// Failed to allocate memory
    ExdrNoMem,
    /// End of file was reached while trying to read
    ExdrEndOfFile,
    /// File was not found when trying to open
    ExdrFileNotFound,
    /// Failed to seek within a file
    ExdrNr,
    /// A status integer the taxonomy does not enumerate, kept as is
    UnmatchedCode(i32),
}

/// The fixed mapping from the native library's raw status integers to the
/// closed code enumeration; every integer outside the enumerated range is
/// preserved in `UnmatchedCode`.
pub open spec fn code_of_raw(raw: i32) -> ErrorCode {
    if raw == 0 {
        ErrorCode::ExdrOk
    } else if raw == 1 {
        ErrorCode::ExdrHeader
    } else if raw == 2 {
        ErrorCode::ExdrString
    } else if raw == 3 {
        ErrorCode::ExdrDouble
    } else if raw == 4 {
        ErrorCode::ExdrInt
    } else if raw == 5 {
        ErrorCode::ExdrFloat
    } else if raw == 6 {
        ErrorCode::ExdrUint
    } else if raw == 7 {
        ErrorCode::Exdr3dx
    } else if raw == 8 {
        ErrorCode::ExdrClose
    } else if raw == 9 {
        ErrorCode::ExdrMagic
    } else if raw == 10 {
        ErrorCode::ExdrNoMem
    } else if raw == 11 {
        ErrorCode::ExdrEndOfFile
    } else if raw == 12 {
        ErrorCode::ExdrFileNotFound
    } else if raw == 13 {
        ErrorCode::ExdrNr
    } else {
        ErrorCode::UnmatchedCode(raw)
    }
}

impl ErrorCode {
    /// True if the code is the end of file code, false otherwise.
    pub fn is_eof(&self) -> (r: bool)
        ensures
            r == (self is ExdrEndOfFile),
    {
        matches!(self, ErrorCode::ExdrEndOfFile)
    }

    /// Translate a raw native status integer into the code enumeration.
    pub fn from_raw(raw: i32) -> (r: ErrorCode)
        ensures
            r == code_of_raw(raw),
    {
        match raw {
            0 => ErrorCode::ExdrOk,
            1 => ErrorCode::ExdrHeader,
            2 => ErrorCode::ExdrString,
            3 => ErrorCode::ExdrDouble,
            4 => ErrorCode::ExdrInt,
            5 => ErrorCode::ExdrFloat,
            6 => ErrorCode::ExdrUint,
            7 => ErrorCode::Exdr3dx,
            8 => ErrorCode::ExdrClose,
            9 => ErrorCode::ExdrMagic,
            10 => ErrorCode::ExdrNoMem,
            11 => ErrorCode::ExdrEndOfFile,
            12 => ErrorCode::ExdrFileNotFound,
            13 => ErrorCode::ExdrNr,
            _ => ErrorCode::UnmatchedCode(raw),
        }
    }
}

impl From<i32> for ErrorCode {
    fn from(raw: i32) -> (r: ErrorCode) {
        ErrorCode::from_raw(raw)
    }
}

impl vstd::std_specs::convert::FromSpecImpl<i32> for ErrorCode {
    open spec fn obeys_from_spec() -> bool {
        true
    }

    open spec fn from_spec(raw: i32) -> ErrorCode {
        code_of_raw(raw)
    }
}

/// The task being attempted when the native codec returned an error.
#[derive(Debug, Clone, Copy, PartialEq, Eq, Structural)]
pub enum ErrorTask {
    /// The number of atoms was being read from a file
    ReadNumAtoms,
    /// A frame was being read from a file
    Read,
    /// A frame was being written to a file
    Write,
    /// A file was being flushed to disk
    Flush,
    /// A seek operation was being run on a file
    Seek,
}

impl ErrorTask {
    /// A short sentence naming the task, as it appears inside a longer
    /// message.
    pub fn description(&self) -> (s: &'static str)
        ensures
            self is ReadNumAtoms ==> s@ == "reading atom number from trajectory"@,
            self is Read ==> s@ == "reading trajectory"@,
            self is Write ==> s@ == "writing trajectory"@,
            self is Flush ==> s@ == "flushing trajectory"@,
            self is Seek ==> s@ == "seeking in trajectory"@,
    {
        match self {
            ErrorTask::ReadNumAtoms => "reading atom number from trajectory",
            ErrorTask::Read => "reading trajectory",
            ErrorTask::Write => "writing trajectory",
            ErrorTask::Flush => "flushing trajectory",
            ErrorTask::Seek => "seeking in trajectory",
        }
    }

    /// The task description with its first letter uppercased, for messages
    /// that start with it.
    pub fn uppercase_first(&self) -> (s: &'static str)
        ensures
            self is ReadNumAtoms ==> s@ == "Reading atom number from trajectory"@,
            self is Read ==> s@ == "Reading trajectory"@,
            self is Write ==> s@ == "Writing trajectory"@,
            self is Flush ==> s@ == "Flushing trajectory"@,
            self is Seek ==> s@ == "Seeking in trajectory"@,
    {
        match self {
            ErrorTask::ReadNumAtoms => "Reading atom number from trajectory",
            ErrorTask::Read => "Reading trajectory",
            ErrorTask::Write => "Writing trajectory",
            ErrorTask::Flush => "Flushing trajectory",
            ErrorTask::Seek => "Seeking in trajectory",
        }
    }
}

/// Error type for the trajectory library.
///
/// Every error carries the task that failed and, when one exists, the native
/// status code; errors that wrap a prior error hold it as a nested cause.
#[derive(Debug, PartialEq)]
pub enum Error {
    /// An error code from the native codec
    CApiError { code: ErrorCode, task: ErrorTask },
    /// Passed in a frame of the wrong size
    WrongSizeFrame { expected: usize, found: usize },
    /// The native codec failed to open a file (no return code provided)
    CouldNotOpen { path: String, mode: FileMode },
    /// A path could not be converted for the native codec
    InvalidOsStr,
    /// Checking the number of atoms failed while reading a frame
    CouldNotCheckNAtoms(Box<Error>),
    /// A value did not fit the native call's integer argument
    CastToCintFailed { value: usize, task: ErrorTask },
    /// A native step value did not fit the frame's step representation
    StepSizeOutOfRange(i32),
}

impl Error {
    /// The native status code behind the error, if one exists, found by
    /// walking the nested-cause chain.
    pub open spec fn spec_code(self) -> Option<ErrorCode>
        decreases self,
    {
        match self {
            Error::CApiError { code, .. } => Some(code),
            Error::CouldNotCheckNAtoms(cause) => cause.spec_code(),
            _ => None,
        }
    }

    /// The task behind the error, if one exists, found by walking the
    /// nested-cause chain.
    pub open spec fn spec_task(self) -> Option<ErrorTask>
        decreases self,
    {
        match self {
            Error::CApiError { task, .. } => Some(task),
            Error::CouldNotCheckNAtoms(cause) => cause.spec_task(),
            _ => None,
        }
    }

    /// An error is an end of file error exactly when the (possibly nested)
    /// native code is the end of file code.
    pub open spec fn spec_is_eof(self) -> bool {
        self.spec_code() matches Some(code) && code is ExdrEndOfFile
    }

    /// Get the error code returned by the native codec, if any.
    pub fn code(&self) -> (r: Option<ErrorCode>)
        ensures
            r == self.spec_code(),
        decreases *self,
    {
        match self {
            Error::CApiError { code, .. } => Some(*code),
            Error::CouldNotCheckNAtoms(cause) => cause.code(),
            _ => None,
        }
    }

    /// Get the task being attempted when the native codec returned an error,
    /// if any.
    pub fn task(&self) -> (r: Option<ErrorTask>)
        ensures
            r == self.spec_task(),
        decreases *self,
    {
        match self {
            Error::CApiError { task, .. } => Some(*task),
            Error::CouldNotCheckNAtoms(cause) => cause.task(),
            _ => None,
        }
    }

    /// True if the error is an end of file error, false otherwise.
    pub fn is_eof(&self) -> (r: bool)
        ensures
            r == self.spec_is_eof(),
    {
        match self.code() {
            Some(code) => code.is_eof(),
            None => false,
        }
    }

    /// The directly nested cause, if the error wraps one.
    pub fn source(&self) -> (r: Option<&Error>)
        ensures
            match *self {
                Error::CouldNotCheckNAtoms(cause) => r matches Some(c) && *c == cause,
                _ => r is None,
            },
    {
        match self {
            Error::CouldNotCheckNAtoms(cause) => Some(&**cause),
            _ => None,
        }
    }
}

impl Clone for Error {
    fn clone(&self) -> (r: Error)
        ensures
            r == *self,
        decreases *self,
    {
        match self {
            Error::CApiError { code, task } => Error::CApiError { code: *code, task: *task },
            Error::WrongSizeFrame { expected, found } => Error::WrongSizeFrame {
                expected: *expected,
                found: *found,
            },
            Error::CouldNotOpen { path, mode } => Error::CouldNotOpen {
                path: path.clone(),
                mode: *mode,
            },
            Error::InvalidOsStr => Error::InvalidOsStr,
            Error::CouldNotCheckNAtoms(cause) => Error::CouldNotCheckNAtoms(
                Box::new((**cause).clone()),
            ),
            Error::CastToCintFailed { value, task } => Error::CastToCintFailed {
                value: *value,
                task: *task,
            },
            Error::StepSizeOutOfRange(step) => Error::StepSizeOutOfRange(*step),
        }
    }
}

impl From<(ErrorCode, ErrorTask)> for Error {
    fn from(value: (ErrorCode, ErrorTask)) -> (r: Error) {
        Error::CApiError { code: value.0, task: value.1 }
    }
}

impl vstd::std_specs::convert::FromSpecImpl<(ErrorCode, ErrorTask)> for Error {
    open spec fn obeys_from_spec() -> bool {
        true
    }

    open spec fn from_spec(value: (ErrorCode, ErrorTask)) -> Error {
        Error::CApiError { code: value.0, task: value.1 }
    }
}

/// Convert a status code from a native call to an `Error`.
///
/// If `code` indicates that the call returned successfully, `None` is
/// returned; otherwise the code is wrapped under the given task. This is the
/// single translation point from native statuses to typed errors.
pub fn check_code(code: ErrorCode, task: ErrorTask) -> (r: Option<Error>)
    ensures
        code is ExdrOk ==> r is None,
        !(code is ExdrOk) ==> r == Some(Error::CApiError { code, task }),
{
    if let ErrorCode::ExdrOk = code {
        None
    } else {
        Some(Error::CApiError { code, task })
    }
}

/// Convert a value for a native call's int argument, reporting the value and
/// the task on overflow.
pub fn to_c_int(value: usize, task: ErrorTask) -> (r: Result<i32, Error>)
    ensures
        value <= i32::MAX ==> r == Ok::<i32, Error>(value as i32),
        value > i32::MAX ==> r == Err::<i32, Error>(Error::CastToCintFailed { value, task }),
{
    if value <= i32::MAX as usize {
        Ok(value as i32)
    } else {
        Err(Error::CastToCintFailed { value, task })
    }
}

} // verus!
