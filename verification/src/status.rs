//! Command status codes: an open enumeration over one wire byte.
//!
//! Controller firmware may send codes this library does not know; they are
//! preserved in the `Other` variant and round-trip losslessly.

use vstd::prelude::*;

verus! {

/// The outcome a controller reports for a command.
#[derive(Clone, Copy, Debug, PartialEq, Eq, Structural)]
pub enum Status {
    Success,
    UnknownCommand,
    NotConnected,
    Failed,
    ConnectFailed,
    AuthenticationFailed,
    NotPaired,
    NoResources,
    Timeout,
    AlreadyConnected,
    Busy,
    Rejected,
    NotSupported,
    InvalidParams,
    Disconnected,
    NotPowered,
    Cancelled,
    InvalidIndex,
    RfKilled,
    AlreadyPaired,
    PermissionDenied,
    /// A code outside the known set, kept as it arrived.
    Other(u8),
}

impl Status {
    /// The wire byte of each variant; `Other` carries its own code.
    pub open spec fn wire(self) -> u8 {
        match self {
            Status::Success => 0x00,
            Status::UnknownCommand => 0x01,
            Status::NotConnected => 0x02,
            Status::Failed => 0x03,
            Status::ConnectFailed => 0x04,
            Status::AuthenticationFailed => 0x05,
            Status::NotPaired => 0x06,
            Status::NoResources => 0x07,
            Status::Timeout => 0x08,
            Status::AlreadyConnected => 0x09,
            Status::Busy => 0x0a,
            Status::Rejected => 0x0b,
            Status::NotSupported => 0x0c,
            Status::InvalidParams => 0x0d,
            Status::Disconnected => 0x0e,
            Status::NotPowered => 0x0f,
            Status::Cancelled => 0x10,
            Status::InvalidIndex => 0x11,
            Status::RfKilled => 0x12,
            Status::AlreadyPaired => 0x13,
            Status::PermissionDenied => 0x14,
            Status::Other(v) => v,
        }
    }

    /// The variant each wire byte names; total over all bytes.
    pub open spec fn spec_from_wire(value: u8) -> Status {
        if value == 0x00 {
            Status::Success
        } else if value == 0x01 {
            Status::UnknownCommand
        } else if value == 0x02 {
            Status::NotConnected
        } else if value == 0x03 {
            Status::Failed
        } else if value == 0x04 {
            Status::ConnectFailed
        } else if value == 0x05 {
            Status::AuthenticationFailed
        } else if value == 0x06 {
            Status::NotPaired
        } else if value == 0x07 {
            Status::NoResources
        } else if value == 0x08 {
            Status::Timeout
        } else if value == 0x09 {
            Status::AlreadyConnected
        } else if value == 0x0a {
            Status::Busy
        } else if value == 0x0b {
            Status::Rejected
        } else if value == 0x0c {
            Status::NotSupported
        } else if value == 0x0d {
            Status::InvalidParams
        } else if value == 0x0e {
            Status::Disconnected
        } else if value == 0x0f {
            Status::NotPowered
        } else if value == 0x10 {
            Status::Cancelled
        } else if value == 0x11 {
            Status::InvalidIndex
        } else if value == 0x12 {
            Status::RfKilled
        } else if value == 0x13 {
            Status::AlreadyPaired
        } else if value == 0x14 {
            Status::PermissionDenied
        } else {
            Status::Other(value)
        }
    }

    /// Decode a wire byte.  Never fails: an unknown code becomes `Other`.
    pub fn from_wire(value: u8) -> (r: Status)
        ensures
            r == Status::spec_from_wire(value),
    {
        match value {
            0x00 => Status::Success,
            0x01 => Status::UnknownCommand,
            0x02 => Status::NotConnected,
            0x03 => Status::Failed,
            0x04 => Status::ConnectFailed,
            0x05 => Status::AuthenticationFailed,
            0x06 => Status::NotPaired,
            0x07 => Status::NoResources,
            0x08 => Status::Timeout,
            0x09 => Status::AlreadyConnected,
            0x0a => Status::Busy,
            0x0b => Status::Rejected,
            0x0c => Status::NotSupported,
            0x0d => Status::InvalidParams,
            0x0e => Status::Disconnected,
            0x0f => Status::NotPowered,
            0x10 => Status::Cancelled,
            0x11 => Status::InvalidIndex,
            0x12 => Status::RfKilled,
            0x13 => Status::AlreadyPaired,
            0x14 => Status::PermissionDenied,
            _ => Status::Other(value),
        }
    }

    /// Encode to the wire byte; recovers the original code exactly, for the
    /// fallback variant too.
    pub fn to_wire(self) -> (r: u8)
        ensures
            r == self.wire(),
    {
        match self {
            Status::Success => 0x00,
            Status::UnknownCommand => 0x01,
            Status::NotConnected => 0x02,
            Status::Failed => 0x03,
            Status::ConnectFailed => 0x04,
            Status::AuthenticationFailed => 0x05,
            Status::NotPaired => 0x06,
            Status::NoResources => 0x07,
            Status::Timeout => 0x08,
            Status::AlreadyConnected => 0x09,
            Status::Busy => 0x0a,
            Status::Rejected => 0x0b,
            Status::NotSupported => 0x0c,
            Status::InvalidParams => 0x0d,
            Status::Disconnected => 0x0e,
            Status::NotPowered => 0x0f,
            Status::Cancelled => 0x10,
            Status::InvalidIndex => 0x11,
            Status::RfKilled => 0x12,
            Status::AlreadyPaired => 0x13,
            Status::PermissionDenied => 0x14,
            Status::Other(v) => v,
        }
    }
}

/// The open-enumeration round trip: decoding any wire byte and encoding
/// the result gives the byte back.
pub proof fn lemma_status_roundtrip(value: u8)
    ensures
        Status::spec_from_wire(value).wire() == value,
{
}

} // verus!
