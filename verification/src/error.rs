//! Error taxonomy of the decoding layer.
//!
//! Every decode failure is an ordinary recoverable value; nothing in this
//! layer panics or aborts.

use vstd::prelude::*;

verus! {

/// What went wrong while decoding.
#[derive(Clone, Copy, Debug, PartialEq, Eq, Structural)]
pub enum HciErrorKind {
    /// The buffer is shorter than the structure requires.
    NotEnoughData,
    /// A lookup found nothing (reserved; not produced by the decoders here).
    NotFound,
    /// A closed enumeration or closed bitmask received a code outside its
    /// known set.
    InvalidValue,
    /// A length field is internally inconsistent.
    InvalidLength,
}

/// A protocol-level decode failure.
#[derive(Clone, Copy, Debug, PartialEq, Eq, Structural)]
pub struct HciError {
    pub kind: HciErrorKind,
}

impl HciError {
    pub fn new(kind: HciErrorKind) -> (r: HciError)
        ensures
            r.kind == kind,
    {
        HciError { kind }
    }
}

/// The error type every decoder returns.
#[derive(Clone, Copy, Debug, PartialEq, Eq, Structural)]
pub enum Error {
    Hci(HciError),
}

impl Error {
    /// The protocol failure carried by this error.
    pub fn kind(&self) -> (r: HciErrorKind)
        ensures
            self == Error::Hci(HciError { kind: r }),
    {
        match self {
            Error::Hci(e) => e.kind,
        }
    }
}

/// The error every decoder returns when the input buffer is too short.
pub open spec fn not_enough_data() -> Error {
    Error::Hci(HciError { kind: HciErrorKind::NotEnoughData })
}

/// The error a closed enumeration or closed bitmask returns on a code
/// outside its known set.
pub open spec fn invalid_value() -> Error {
    Error::Hci(HciError { kind: HciErrorKind::InvalidValue })
}

/// The error a decoder returns on an internally inconsistent length field.
pub open spec fn invalid_length() -> Error {
    Error::Hci(HciError { kind: HciErrorKind::InvalidLength })
}

/// Executable constructor matching [`not_enough_data`].
pub fn err_not_enough_data() -> (r: Error)
    ensures
        r == not_enough_data(),
{
    Error::Hci(HciError::new(HciErrorKind::NotEnoughData))
}

/// Executable constructor matching [`invalid_value`].
pub fn err_invalid_value() -> (r: Error)
    ensures
        r == invalid_value(),
{
    Error::Hci(HciError::new(HciErrorKind::InvalidValue))
}

/// Executable constructor matching [`invalid_length`].
pub fn err_invalid_length() -> (r: Error)
    ensures
        r == invalid_length(),
{
    Error::Hci(HciError::new(HciErrorKind::InvalidLength))
}

impl From<HciError> for Error {
    fn from(err: HciError) -> (r: Error) {
        Error::Hci(err)
    }
}

impl vstd::std_specs::convert::FromSpecImpl<HciError> for Error {
    open spec fn obeys_from_spec() -> bool {
        true
    }

    open spec fn from_spec(err: HciError) -> Error {
        Error::Hci(err)
    }
}

} // verus!
