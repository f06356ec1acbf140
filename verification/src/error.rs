//! The errors that the native library reports, and its status codes.

use vstd::prelude::*;

verus! {

/// The status code of a native call that succeeded.
pub const STATUS_SUCCESS: u32 = 0;

/// The status code of an unspecified failure.
pub const STATUS_FAILURE: u32 = 1;

/// The status code of a call that ran out of memory.
pub const STATUS_OUT_OF_MEMORY: u32 = 2;

/// The status code of a failure to initialize an external dependency.
pub const STATUS_INITIALIZATION: u32 = 3;

/// What can go wrong in a call into the native library.
#[derive(Debug, Clone, Copy, PartialEq, Eq, Structural)]
pub enum Error {
    /// An unspecified error occurred.
    Failure,
    /// The system ran out of memory.
    OutOfMemory,
    /// An error occurred while initializing an external dependency.
    Initialization,
}

impl Error {
    /// The error that a status code other than success stands for.
    pub open spec fn of_status(status: u32) -> Error {
        if status == STATUS_FAILURE {
            Error::Failure
        } else if status == STATUS_OUT_OF_MEMORY {
            Error::OutOfMemory
        } else {
            Error::Initialization
        }
    }

    /// The message that describes the error.
    pub open spec fn spec_message(self) -> Seq<char> {
        match self {
            Error::Failure => "An unspecified error occurred."@,
            Error::OutOfMemory => "The system ran out of memory."@,
            Error::Initialization => "An error occurred while initializing an external dependency."@,
        }
    }

    /// Describes the error in a sentence.
    pub fn to_string(&self) -> (message: String)
        ensures
            message@ == self.spec_message(),
    {
        match self {
            Error::Failure => "An unspecified error occurred.".to_owned(),
            Error::OutOfMemory => "The system ran out of memory.".to_owned(),
            Error::Initialization => "An error occurred while initializing an external dependency.".to_owned(),
        }
    }
}

/// Turns the status of a native call into a result: `value` where the call
/// succeeded, and otherwise the error that the status stands for.
///
/// The status must be one of the four codes that the native library
/// defines.
pub fn check<T>(status: u32, value: T) -> (result: Result<T, Error>)
    requires
        status <= STATUS_INITIALIZATION,
    ensures
        status == STATUS_SUCCESS ==> result == Ok::<T, Error>(value),
        status != STATUS_SUCCESS ==> result == Err::<T, Error>(Error::of_status(status)),
{
    if status == STATUS_SUCCESS {
        Ok(value)
    } else if status == STATUS_FAILURE {
        Err(Error::Failure)
    } else if status == STATUS_OUT_OF_MEMORY {
        Err(Error::OutOfMemory)
    } else {
        Err(Error::Initialization)
    }
}

} // verus!
