//! The closed set of failures that installing or opening can report.

use vstd::prelude::*;

verus! {

/// What an operating-system I/O failure carried: its native error code, where
/// there was one, and its description.
#[derive(Debug, PartialEq, Eq)]
pub struct IoFailure {
    pub code: Option<i32>,
    pub message: String,
}

impl Clone for IoFailure {
    fn clone(&self) -> (copy: IoFailure)
        ensures
            copy == *self,
    {
        IoFailure { code: self.code, message: self.message.clone() }
    }
}

/// Why a text could not be passed across the system boundary. Each kind
/// carries the description of its cause.
#[derive(Debug, PartialEq, Eq)]
pub enum StringFailure {
    /// The bytes were not valid UTF-8.
    Utf8(String),
    /// There was a zero where none may be, or no text at all.
    Null(String),
    /// A foreign string could not be turned into text.
    IntoString(String),
}

impl Clone for StringFailure {
    fn clone(&self) -> (copy: StringFailure)
        ensures
            copy == *self,
    {
        match self {
            StringFailure::Utf8(cause) => StringFailure::Utf8(cause.clone()),
            StringFailure::Null(cause) => StringFailure::Null(cause.clone()),
            StringFailure::IntoString(cause) => StringFailure::IntoString(cause.clone()),
        }
    }
}

/// Every way in which installing or opening can fail.
#[derive(Debug, PartialEq, Eq)]
pub enum SystemUriError {
    /// A registry, file or process operation failed.
    IoError(IoFailure),
    /// Text could not be converted into the form the system boundary needs.
    StringError(StringFailure),
    /// The shell did not accept the URI; carries the status it returned.
    ShellOpenError(i32),
    /// A condition that fits none of the other kinds, described by a fixed
    /// message.
    Unexpected(&'static str),
}

impl Clone for SystemUriError {
    fn clone(&self) -> (copy: SystemUriError)
        ensures
            copy == *self,
    {
        match self {
            SystemUriError::IoError(failure) => SystemUriError::IoError(failure.clone()),
            SystemUriError::StringError(failure) => SystemUriError::StringError(failure.clone()),
            SystemUriError::ShellOpenError(status) => SystemUriError::ShellOpenError(*status),
            SystemUriError::Unexpected(message) => SystemUriError::Unexpected(*message),
        }
    }
}

} // verus!
