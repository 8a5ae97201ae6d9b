//! Error codes returned by SoftDevice supervisor calls.
use vstd::prelude::*;

verus! {

/// Return code of a supervisor call that succeeded.
pub const NRF_SUCCESS: u32 = 0;

/// An error reported by the SoftDevice.
///
/// Codes `1..=19` are the generic `NRF_ERROR_*` codes; every other nonzero
/// code (module specific codes such as the ANT ones) is kept in `Other`.
#[derive(Debug, Clone, Copy, PartialEq, Eq, Structural)]
pub enum RawError {
    SvcHandlerMissing,
    SoftdeviceNotEnabled,
    Internal,
    NoMem,
    NotFound,
    NotSupported,
    InvalidParam,
    InvalidState,
    InvalidLength,
    InvalidFlags,
    InvalidData,
    DataSize,
    Timeout,
    Null,
    Forbidden,
    InvalidAddr,
    Busy,
    ConnCount,
    Resources,
    Other(u32),
}

/// The error that a nonzero code stands for.
pub open spec fn spec_error_of(code: u32) -> RawError {
    if code == 1 { RawError::SvcHandlerMissing }
    else if code == 2 { RawError::SoftdeviceNotEnabled }
    else if code == 3 { RawError::Internal }
    else if code == 4 { RawError::NoMem }
    else if code == 5 { RawError::NotFound }
    else if code == 6 { RawError::NotSupported }
    else if code == 7 { RawError::InvalidParam }
    else if code == 8 { RawError::InvalidState }
    else if code == 9 { RawError::InvalidLength }
    else if code == 10 { RawError::InvalidFlags }
    else if code == 11 { RawError::InvalidData }
    else if code == 12 { RawError::DataSize }
    else if code == 13 { RawError::Timeout }
    else if code == 14 { RawError::Null }
    else if code == 15 { RawError::Forbidden }
    else if code == 16 { RawError::InvalidAddr }
    else if code == 17 { RawError::Busy }
    else if code == 18 { RawError::ConnCount }
    else if code == 19 { RawError::Resources }
    else { RawError::Other(code) }
}

/// What `RawError::convert` gives for a return code.
pub open spec fn spec_convert(ret: u32) -> Result<(), RawError> {
    if ret == NRF_SUCCESS { Ok(()) } else { Err(spec_error_of(ret)) }
}

impl RawError {
    /// The numeric code of an error.
    pub open spec fn spec_code(self) -> u32 {
        match self {
            RawError::SvcHandlerMissing => 1,
            RawError::SoftdeviceNotEnabled => 2,
            RawError::Internal => 3,
            RawError::NoMem => 4,
            RawError::NotFound => 5,
            RawError::NotSupported => 6,
            RawError::InvalidParam => 7,
            RawError::InvalidState => 8,
            RawError::InvalidLength => 9,
            RawError::InvalidFlags => 10,
            RawError::InvalidData => 11,
            RawError::DataSize => 12,
            RawError::Timeout => 13,
            RawError::Null => 14,
            RawError::Forbidden => 15,
            RawError::InvalidAddr => 16,
            RawError::Busy => 17,
            RawError::ConnCount => 18,
            RawError::Resources => 19,
            RawError::Other(c) => c,
        }
    }

    /// An error value as `from_code` builds it: `Other` only holds codes
    /// above 19 (never 0, never a code that has a variant of its own).
    pub open spec fn is_canonical(self) -> bool {
        match self {
            RawError::Other(c) => c > 19,
            _ => true,
        }
    }

    /// The error for a nonzero return code.
    pub fn from_code(code: u32) -> (e: RawError)
        requires
            code != NRF_SUCCESS,
        ensures
            e == spec_error_of(code),
            e.spec_code() == code,
            e.is_canonical(),
    {
        match code {
            1 => RawError::SvcHandlerMissing,
            2 => RawError::SoftdeviceNotEnabled,
            3 => RawError::Internal,
            4 => RawError::NoMem,
            5 => RawError::NotFound,
            6 => RawError::NotSupported,
            7 => RawError::InvalidParam,
            8 => RawError::InvalidState,
            9 => RawError::InvalidLength,
            10 => RawError::InvalidFlags,
            11 => RawError::InvalidData,
            12 => RawError::DataSize,
            13 => RawError::Timeout,
            14 => RawError::Null,
            15 => RawError::Forbidden,
            16 => RawError::InvalidAddr,
            17 => RawError::Busy,
            18 => RawError::ConnCount,
            19 => RawError::Resources,
            _ => RawError::Other(code),
        }
    }

    /// The numeric code of this error.
    pub fn code(&self) -> (c: u32)
        ensures
            c == self.spec_code(),
    {
        match self {
            RawError::SvcHandlerMissing => 1,
            RawError::SoftdeviceNotEnabled => 2,
            RawError::Internal => 3,
            RawError::NoMem => 4,
            RawError::NotFound => 5,
            RawError::NotSupported => 6,
            RawError::InvalidParam => 7,
            RawError::InvalidState => 8,
            RawError::InvalidLength => 9,
            RawError::InvalidFlags => 10,
            RawError::InvalidData => 11,
            RawError::DataSize => 12,
            RawError::Timeout => 13,
            RawError::Null => 14,
            RawError::Forbidden => 15,
            RawError::InvalidAddr => 16,
            RawError::Busy => 17,
            RawError::ConnCount => 18,
            RawError::Resources => 19,
            RawError::Other(c) => *c,
        }
    }

    /// Turns a supervisor call's return code into a `Result`:
    /// `Ok` exactly for `NRF_SUCCESS`, else the error that the code stands for.
    pub fn convert(ret: u32) -> (r: Result<(), RawError>)
        ensures
            r == spec_convert(ret),
            r is Ok <==> ret == NRF_SUCCESS,
            r matches Err(e) ==> e.spec_code() == ret && e.is_canonical(),
    {
        if ret == NRF_SUCCESS {
            Ok(())
        } else {
            Err(RawError::from_code(ret))
        }
    }
}

/// Decoding a nonzero code and encoding the error again gives the code back.
pub proof fn lemma_code_round_trip(code: u32)
    requires
        code != NRF_SUCCESS,
    ensures
        spec_error_of(code).spec_code() == code,
        spec_error_of(code).is_canonical(),
{
}

/// Encoding a canonical error and decoding its code gives the error back.
pub proof fn lemma_error_round_trip(e: RawError)
    requires
        e.is_canonical(),
    ensures
        spec_error_of(e.spec_code()) == e,
{
}

} // verus!
