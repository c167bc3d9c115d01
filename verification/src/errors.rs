//! The status-code domain shared across the syscall and page boundary.
//!
//! Codes travel as 16-bit integers whose numbering is fixed for all time, so
//! that kernel and user binaries built at different times still agree on them.
//! Any integer at or above the reserved sentinel decodes to the distinguished
//! unknown variant instead of being rejected, which keeps an old binary
//! working when the other side starts sending codes it has never seen.

use vstd::prelude::*;

verus! {

/// One status code per fallible boundary-crossing operation.
#[derive(Clone, Copy, Debug, PartialEq, Eq, Structural)]
pub enum ErrorCode {
    Success,
    /// A generic error.
    UnspecifiedError,
    /// Stands in for any numeric code this build does not know.
    UnknownError,
    NotReady,
    NotImplemented,
    VersionTooHigh,
    VersionTooLow,
    InvalidArgument,
    OutOfMemory,
    /// Permission error.
    NotAllowed,
    NotFound,
    InternalError,
    TimedOut,
    AlreadyInUse,
    UnexpectedEof,
    InvalidFilename,
    NotADirectory,
    BadHandle,
    FileTooLarge,
    /// Reserved sentinel: one past the largest assigned code.
    MaxKernelError,
}

/// The wire value of each code. The numbering is part of the ABI and never
/// changes; the value 4 is unassigned and left free.
pub open spec fn code_of(e: ErrorCode) -> u16 {
    match e {
        ErrorCode::Success => 0,
        ErrorCode::UnspecifiedError => 1,
        ErrorCode::UnknownError => 2,
        ErrorCode::NotReady => 3,
        ErrorCode::NotImplemented => 5,
        ErrorCode::VersionTooHigh => 6,
        ErrorCode::VersionTooLow => 7,
        ErrorCode::InvalidArgument => 8,
        ErrorCode::OutOfMemory => 9,
        ErrorCode::NotAllowed => 10,
        ErrorCode::NotFound => 11,
        ErrorCode::InternalError => 12,
        ErrorCode::TimedOut => 13,
        ErrorCode::AlreadyInUse => 14,
        ErrorCode::UnexpectedEof => 15,
        ErrorCode::InvalidFilename => 16,
        ErrorCode::NotADirectory => 17,
        ErrorCode::BadHandle => 18,
        ErrorCode::FileTooLarge => 19,
        ErrorCode::MaxKernelError => 20,
    }
}

/// Total decoding of a 16-bit wire value: assigned values map to their code,
/// everything else (the unassigned value 4, the sentinel, and all larger
/// values) maps to the unknown variant.
pub open spec fn decode_of(v: u16) -> ErrorCode {
    match v {
        0u16 => ErrorCode::Success,
        1u16 => ErrorCode::UnspecifiedError,
        2u16 => ErrorCode::UnknownError,
        3u16 => ErrorCode::NotReady,
        5u16 => ErrorCode::NotImplemented,
        6u16 => ErrorCode::VersionTooHigh,
        7u16 => ErrorCode::VersionTooLow,
        8u16 => ErrorCode::InvalidArgument,
        9u16 => ErrorCode::OutOfMemory,
        10u16 => ErrorCode::NotAllowed,
        11u16 => ErrorCode::NotFound,
        12u16 => ErrorCode::InternalError,
        13u16 => ErrorCode::TimedOut,
        14u16 => ErrorCode::AlreadyInUse,
        15u16 => ErrorCode::UnexpectedEof,
        16u16 => ErrorCode::InvalidFilename,
        17u16 => ErrorCode::NotADirectory,
        18u16 => ErrorCode::BadHandle,
        19u16 => ErrorCode::FileTooLarge,
        _ => ErrorCode::UnknownError,
    }
}

impl ErrorCode {
    /// True exactly for the success code.
    pub fn is_ok(&self) -> (r: bool)
        ensures
            r == (*self == ErrorCode::Success),
    {
        *self == ErrorCode::Success
    }

    /// True for every code but the success code.
    pub fn is_err(&self) -> (r: bool)
        ensures
            r == (*self != ErrorCode::Success),
    {
        *self != ErrorCode::Success
    }

    /// The 16-bit wire value of this code.
    pub fn as_u16(&self) -> (r: u16)
        ensures
            r == code_of(*self),
    {
        match *self {
            ErrorCode::Success => 0,
            ErrorCode::UnspecifiedError => 1,
            ErrorCode::UnknownError => 2,
            ErrorCode::NotReady => 3,
            ErrorCode::NotImplemented => 5,
            ErrorCode::VersionTooHigh => 6,
            ErrorCode::VersionTooLow => 7,
            ErrorCode::InvalidArgument => 8,
            ErrorCode::OutOfMemory => 9,
            ErrorCode::NotAllowed => 10,
            ErrorCode::NotFound => 11,
            ErrorCode::InternalError => 12,
            ErrorCode::TimedOut => 13,
            ErrorCode::AlreadyInUse => 14,
            ErrorCode::UnexpectedEof => 15,
            ErrorCode::InvalidFilename => 16,
            ErrorCode::NotADirectory => 17,
            ErrorCode::BadHandle => 18,
            ErrorCode::FileTooLarge => 19,
            ErrorCode::MaxKernelError => 20,
        }
    }

    /// Decodes a 16-bit wire value; never fails, unknown values come back as
    /// the unknown variant.
    pub fn from_u16(val: u16) -> (r: Self)
        ensures
            r == decode_of(val),
    {
        match val {
            0 => ErrorCode::Success,
            1 => ErrorCode::UnspecifiedError,
            2 => ErrorCode::UnknownError,
            3 => ErrorCode::NotReady,
            5 => ErrorCode::NotImplemented,
            6 => ErrorCode::VersionTooHigh,
            7 => ErrorCode::VersionTooLow,
            8 => ErrorCode::InvalidArgument,
            9 => ErrorCode::OutOfMemory,
            10 => ErrorCode::NotAllowed,
            11 => ErrorCode::NotFound,
            12 => ErrorCode::InternalError,
            13 => ErrorCode::TimedOut,
            14 => ErrorCode::AlreadyInUse,
            15 => ErrorCode::UnexpectedEof,
            16 => ErrorCode::InvalidFilename,
            17 => ErrorCode::NotADirectory,
            18 => ErrorCode::BadHandle,
            19 => ErrorCode::FileTooLarge,
            _ => ErrorCode::UnknownError,
        }
    }
}

impl From<ErrorCode> for u16 {
    /// The wire value of a code, as `as_u16` gives it.
    fn from(value: ErrorCode) -> (r: u16) {
        value.as_u16()
    }
}

impl vstd::std_specs::convert::FromSpecImpl<ErrorCode> for u16 {
    open spec fn obeys_from_spec() -> bool {
        true
    }

    open spec fn from_spec(value: ErrorCode) -> u16 {
        code_of(value)
    }
}

impl From<u16> for ErrorCode {
    /// The code of a wire value, as `from_u16` gives it.
    fn from(value: u16) -> (r: ErrorCode) {
        ErrorCode::from_u16(value)
    }
}

impl vstd::std_specs::convert::FromSpecImpl<u16> for ErrorCode {
    open spec fn obeys_from_spec() -> bool {
        true
    }

    open spec fn from_spec(value: u16) -> ErrorCode {
        decode_of(value)
    }
}

/// Encoding is injective: distinct codes never share a wire value.
pub proof fn lemma_code_injective(a: ErrorCode, b: ErrorCode)
    ensures
        code_of(a) == code_of(b) ==> a == b,
{
}

/// Round trip through the known-variant space is idempotent: re-encoding
/// whatever a wire value decoded to, and decoding again, changes nothing.
/// Values at or above the sentinel all decode to the unknown variant.
pub proof fn lemma_code_round_trip(v: u16)
    ensures
        decode_of(code_of(decode_of(v))) == decode_of(v),
        v >= code_of(ErrorCode::MaxKernelError) ==> decode_of(v) == ErrorCode::UnknownError,
{
}

} // verus!
