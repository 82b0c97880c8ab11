//! Command operation codes: an open enumeration over a 16-bit wire value.
//!
//! Codes this library does not know are preserved in the `Other` variant
//! and round-trip losslessly, so newer controller firmware stays usable.

use vstd::prelude::*;

verus! {

/// The operation a command frame asks for.
#[derive(Clone, Copy, Debug, PartialEq, Eq, Structural)]
pub enum OperationId {
    ReadVersion,
    ReadCommands,
    ReadIndexList,
    ReadInformation,
    SetPowered,
    SetDiscoverable,
    SetConnectable,
    StartDiscovery,
    StopDiscovery,
    /// A code outside the known set, kept as it arrived.
    Other(u16),
}

impl OperationId {
    /// The wire value of each variant; `Other` carries its own code.
    pub open spec fn wire(self) -> u16 {
        match self {
            OperationId::ReadVersion => 0x0001,
            OperationId::ReadCommands => 0x0002,
            OperationId::ReadIndexList => 0x0003,
            OperationId::ReadInformation => 0x0004,
            OperationId::SetPowered => 0x0005,
            OperationId::SetDiscoverable => 0x0006,
            OperationId::SetConnectable => 0x0007,
            OperationId::StartDiscovery => 0x0023,
            OperationId::StopDiscovery => 0x0024,
            OperationId::Other(v) => v,
        }
    }

    /// The variant each wire value names; total over all values.
    pub open spec fn spec_from_wire(value: u16) -> OperationId {
        if value == 0x0001 {
            OperationId::ReadVersion
        } else if value == 0x0002 {
            OperationId::ReadCommands
        } else if value == 0x0003 {
            OperationId::ReadIndexList
        } else if value == 0x0004 {
            OperationId::ReadInformation
        } else if value == 0x0005 {
            OperationId::SetPowered
        } else if value == 0x0006 {
            OperationId::SetDiscoverable
        } else if value == 0x0007 {
            OperationId::SetConnectable
        } else if value == 0x0023 {
            OperationId::StartDiscovery
        } else if value == 0x0024 {
            OperationId::StopDiscovery
        } else {
            OperationId::Other(value)
        }
    }

    /// Decode a wire value.  Never fails: an unknown code becomes `Other`.
    pub fn from_wire(value: u16) -> (r: OperationId)
        ensures
            r == OperationId::spec_from_wire(value),
    {
        match value {
            0x0001 => OperationId::ReadVersion,
            0x0002 => OperationId::ReadCommands,
            0x0003 => OperationId::ReadIndexList,
            0x0004 => OperationId::ReadInformation,
            0x0005 => OperationId::SetPowered,
            0x0006 => OperationId::SetDiscoverable,
            0x0007 => OperationId::SetConnectable,
            0x0023 => OperationId::StartDiscovery,
            0x0024 => OperationId::StopDiscovery,
            _ => OperationId::Other(value),
        }
    }

    /// Encode to the wire value; recovers the original code exactly, for
    /// the fallback variant too.
    pub fn to_wire(self) -> (r: u16)
        ensures
            r == self.wire(),
    {
        match self {
            OperationId::ReadVersion => 0x0001,
            OperationId::ReadCommands => 0x0002,
            OperationId::ReadIndexList => 0x0003,
            OperationId::ReadInformation => 0x0004,
            OperationId::SetPowered => 0x0005,
            OperationId::SetDiscoverable => 0x0006,
            OperationId::SetConnectable => 0x0007,
            OperationId::StartDiscovery => 0x0023,
            OperationId::StopDiscovery => 0x0024,
            OperationId::Other(v) => v,
        }
    }
}

/// The open-enumeration round trip: decoding any wire value and encoding
/// the result gives the value back.
pub proof fn lemma_operation_id_roundtrip(value: u16)
    ensures
        OperationId::spec_from_wire(value).wire() == value,
{
}

} // verus!
