use vstd::prelude::*;

verus! {

/// Errors surfaced by message decoding and by nonzero firmware result codes.
#[derive(Clone, Copy, Debug, PartialEq, Eq, Structural)]
pub enum Error {
    /// The call failed for an unspecified reason.
    Failed,
    /// The extension id or function id is not recognized.
    NotSupported,
    /// An argument of the call was invalid.
    InvalidParam,
    /// The call was denied.
    Denied,
    /// An address argument of the call was invalid.
    InvalidAddress,
    /// A nonzero error code outside the known table, carried verbatim.
    UnknownSbiError(i64),
}

/// The error kind that a nonzero firmware error code maps to.
pub open spec fn error_from_code_spec(code: i64) -> Error {
    if code == -1 {
        Error::Failed
    } else if code == -2 {
        Error::NotSupported
    } else if code == -3 {
        Error::InvalidParam
    } else if code == -4 {
        Error::Denied
    } else if code == -5 {
        Error::InvalidAddress
    } else {
        Error::UnknownSbiError(code)
    }
}

/// Maps a nonzero firmware error code to its error kind.
pub fn error_from_code(code: i64) -> (e: Error)
    ensures
        e == error_from_code_spec(code),
{
    if code == -1 {
        Error::Failed
    } else if code == -2 {
        Error::NotSupported
    } else if code == -3 {
        Error::InvalidParam
    } else if code == -4 {
        Error::Denied
    } else if code == -5 {
        Error::InvalidAddress
    } else {
        Error::UnknownSbiError(code)
    }
}

} // verus!
