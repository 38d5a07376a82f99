//! Error codes carried in responses on the wire, and the error type returned
//! by bus operations that fail locally.

use vstd::prelude::*;

verus! {

/// The closed set of error codes a response can carry.
#[derive(Clone, Copy, PartialEq, Eq, Structural, Debug)]
pub enum SwbusErrorCode {
    Okay,
    InvalidArgs,
    NoRoute,
    Unreachable,
    ResourceExhausted,
    Timeout,
    UnknownError,
}

impl SwbusErrorCode {
    /// The wire value of this code. `Okay` is zero; the rest are a stable
    /// enumeration.
    pub fn to_wire(self) -> (r: i32)
        ensures
            r == code_wire_value(self),
    {
        match self {
            SwbusErrorCode::Okay => 0,
            SwbusErrorCode::InvalidArgs => 1,
            SwbusErrorCode::NoRoute => 2,
            SwbusErrorCode::Unreachable => 3,
            SwbusErrorCode::ResourceExhausted => 4,
            SwbusErrorCode::Timeout => 5,
            SwbusErrorCode::UnknownError => 6,
        }
    }

    /// Decode a wire value; an unknown value yields `None`.
    pub fn from_wire(value: i32) -> (r: Option<SwbusErrorCode>)
        ensures
            r == wire_to_code(value),
    {
        match value {
            0 => Some(SwbusErrorCode::Okay),
            1 => Some(SwbusErrorCode::InvalidArgs),
            2 => Some(SwbusErrorCode::NoRoute),
            3 => Some(SwbusErrorCode::Unreachable),
            4 => Some(SwbusErrorCode::ResourceExhausted),
            5 => Some(SwbusErrorCode::Timeout),
            6 => Some(SwbusErrorCode::UnknownError),
            _ => None,
        }
    }
}

/// Wire value of each error code.
pub open spec fn code_wire_value(c: SwbusErrorCode) -> i32 {
    match c {
        SwbusErrorCode::Okay => 0,
        SwbusErrorCode::InvalidArgs => 1,
        SwbusErrorCode::NoRoute => 2,
        SwbusErrorCode::Unreachable => 3,
        SwbusErrorCode::ResourceExhausted => 4,
        SwbusErrorCode::Timeout => 5,
        SwbusErrorCode::UnknownError => 6,
    }
}

/// Decoding of a wire value, `None` for values outside the enumeration.
pub open spec fn wire_to_code(value: i32) -> Option<SwbusErrorCode> {
    if value == 0 {
        Some(SwbusErrorCode::Okay)
    } else if value == 1 {
        Some(SwbusErrorCode::InvalidArgs)
    } else if value == 2 {
        Some(SwbusErrorCode::NoRoute)
    } else if value == 3 {
        Some(SwbusErrorCode::Unreachable)
    } else if value == 4 {
        Some(SwbusErrorCode::ResourceExhausted)
    } else if value == 5 {
        Some(SwbusErrorCode::Timeout)
    } else if value == 6 {
        Some(SwbusErrorCode::UnknownError)
    } else {
        None
    }
}

/// A local failure of a bus operation. `Input` reports a malformed argument;
/// `Internal` reports an infrastructure failure such as a saturated send
/// queue.
#[derive(Debug)]
pub enum SwbusError {
    Input { code: SwbusErrorCode, detail: String },
    Internal { code: SwbusErrorCode, detail: String },
}

impl SwbusError {
    /// An input error with the given code.
    pub fn input(code: SwbusErrorCode, detail: String) -> (r: SwbusError)
        ensures
            r == (SwbusError::Input { code, detail }),
    {
        SwbusError::Input { code, detail }
    }

    /// An infrastructure error with the given code.
    pub fn internal(code: SwbusErrorCode, detail: String) -> (r: SwbusError)
        ensures
            r == (SwbusError::Internal { code, detail }),
    {
        SwbusError::Internal { code, detail }
    }

    /// The error code carried by either family.
    pub fn code(&self) -> (r: SwbusErrorCode)
        ensures
            r == error_code_of(*self),
    {
        match self {
            SwbusError::Input { code, .. } => *code,
            SwbusError::Internal { code, .. } => *code,
        }
    }
}

/// The code carried by an error of either family.
pub open spec fn error_code_of(e: SwbusError) -> SwbusErrorCode {
    match e {
        SwbusError::Input { code, .. } => code,
        SwbusError::Internal { code, .. } => code,
    }
}

} // verus!
