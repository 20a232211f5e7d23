//! Error codes reported by Embree, and their descriptions.

use vstd::prelude::*;

verus! {

/// Error codes reported by Embree devices.
#[derive(Clone, Copy, Debug, PartialEq, Eq, Structural)]
pub enum Error {
    /// No error occurred.
    NoError,
    /// An unknown error has occurred.
    Unknown,
    /// An invalid argument was specified.
    InvalidArgument,
    /// The operation is not allowed for the specified object.
    InvalidOperation,
    /// There is not enough memory left to complete the operation.
    OutOfMemory,
    /// The CPU is not supported as it does not support the lowest ISA Embree is compiled for.
    UnsupportedCpu,
    /// The operation got canceled by a memory monitor callback or progress monitor callback function.
    Cancelled,
}

impl Error {
    /// Numeric code of the error in the Embree API.
    pub fn code(&self) -> (r: u32)
        ensures
            r == error_code(*self),
    {
        match self {
            Error::NoError => 0,
            Error::Unknown => 1,
            Error::InvalidArgument => 2,
            Error::InvalidOperation => 3,
            Error::OutOfMemory => 4,
            Error::UnsupportedCpu => 5,
            Error::Cancelled => 6,
        }
    }

    /// The error with the given numeric code, if there is one.
    pub fn from_code(code: u32) -> (r: Option<Error>)
        ensures
            match r {
                Some(e) => error_code(e) == code,
                None => code > 6,
            },
    {
        if code == 0 {
            Some(Error::NoError)
        } else if code == 1 {
            Some(Error::Unknown)
        } else if code == 2 {
            Some(Error::InvalidArgument)
        } else if code == 3 {
            Some(Error::InvalidOperation)
        } else if code == 4 {
            Some(Error::OutOfMemory)
        } else if code == 5 {
            Some(Error::UnsupportedCpu)
        } else if code == 6 {
            Some(Error::Cancelled)
        } else {
            None
        }
    }

    /// Human-readable description of the error.
    pub fn message(&self) -> (r: &'static str)
        ensures
            r@ == error_message(*self)@,
    {
        match self {
            Error::NoError => "No error occurred.",
            Error::Unknown => "An unknown error has occurred.",
            Error::InvalidArgument => "An invalid argument was specified.",
            Error::InvalidOperation => "The operation is not allowed for the specified object.",
            Error::OutOfMemory => "There is not enough memory left to complete the operation.",
            Error::UnsupportedCpu => "The CPU is not supported as it does not support the lowest ISA Embree is compiled for.",
            Error::Cancelled => "The operation got canceled by a memory monitor callback or progress monitor callback function.",
        }
    }
}

/// Numeric code of an error in the Embree API.
pub open spec fn error_code(e: Error) -> u32 {
    match e {
        Error::NoError => 0,
        Error::Unknown => 1,
        Error::InvalidArgument => 2,
        Error::InvalidOperation => 3,
        Error::OutOfMemory => 4,
        Error::UnsupportedCpu => 5,
        Error::Cancelled => 6,
    }
}

/// Human-readable description of an error.
pub open spec fn error_message(e: Error) -> &'static str {
    match e {
        Error::NoError => "No error occurred.",
        Error::Unknown => "An unknown error has occurred.",
        Error::InvalidArgument => "An invalid argument was specified.",
        Error::InvalidOperation => "The operation is not allowed for the specified object.",
        Error::OutOfMemory => "There is not enough memory left to complete the operation.",
        Error::UnsupportedCpu => "The CPU is not supported as it does not support the lowest ISA Embree is compiled for.",
        Error::Cancelled => "The operation got canceled by a memory monitor callback or progress monitor callback function.",
    }
}

/// Converting an error to its code and back gives the same error.
pub proof fn lemma_error_code_round_trip(e: Error)
    ensures
        error_code(e) <= 6,
        forall|e2: Error| error_code(e2) == error_code(e) ==> e2 == e,
{
}

} // verus!
