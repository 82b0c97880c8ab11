//! The discovery-state event payload.

use vstd::prelude::*;

use crate::error::{err_invalid_value, err_not_enough_data, invalid_value, not_enough_data, Error};
use crate::pack::UnpackFixed;

verus! {

/// Discovery of basic-rate / enhanced-data-rate devices.
pub const DISCOVERING_BR_EDR: u8 = 0b0001;

/// Discovery of low-energy devices with public addresses.
pub const DISCOVERING_LE_PUBLIC: u8 = 0b0010;

/// Discovery of low-energy devices with random addresses.
pub const DISCOVERING_LE_RANDOM: u8 = 0b0100;

/// The wire bits a discovery-type mask may set; any other bit is a
/// protocol violation.
pub const DISCOVERING_MASK: u8 = 0b0111;

/// The closed bitmask naming which link technologies a discovery covers.
#[derive(Clone, Copy, Debug, PartialEq, Eq, Structural)]
pub struct DiscoveringType {
    /// The raw flag bits; only bits of [`DISCOVERING_MASK`] can be set.
    pub bits: u8,
}

impl DiscoveringType {
    /// The mask each wire byte names; a byte with an unknown bit set is
    /// rejected, since the protocol defines every valid bit.
    pub open spec fn spec_from_bits(value: u8) -> Option<DiscoveringType> {
        if value & !DISCOVERING_MASK == 0 {
            Some(DiscoveringType { bits: value })
        } else {
            None
        }
    }

    /// Decode a wire byte into the mask; `None` on any unknown bit.
    pub fn from_bits(value: u8) -> (r: Option<DiscoveringType>)
        ensures
            r == DiscoveringType::spec_from_bits(value),
    {
        if value & !DISCOVERING_MASK == 0 {
            Some(DiscoveringType { bits: value })
        } else {
            None
        }
    }

    /// The flag bits as the raw integer.
    pub fn bits(&self) -> (r: u8)
        ensures
            r == self.bits,
    {
        self.bits
    }

    /// The mask holding the flags of both operands.
    pub fn union(self, other: DiscoveringType) -> (r: DiscoveringType)
        ensures
            r.bits == self.bits | other.bits,
    {
        DiscoveringType { bits: self.bits | other.bits }
    }

    /// Whether every flag of `other` is also set in `self`.
    pub fn contains(&self, other: DiscoveringType) -> (r: bool)
        ensures
            r == (self.bits & other.bits == other.bits),
    {
        self.bits & other.bits == other.bits
    }
}

/// Whether a discovery is running, and over which link technologies:
/// exactly 2 bytes on the wire.
#[derive(Clone, Copy, Debug, PartialEq, Eq, Structural)]
pub struct Discovering {
    pub discovery_type: DiscoveringType,
    pub discovering: bool,
}

impl View for Discovering {
    type V = Discovering;

    open spec fn view(&self) -> Discovering {
        *self
    }
}

impl UnpackFixed for Discovering {
    open spec fn spec_size() -> int {
        2
    }

    open spec fn spec_unpack(b: Seq<u8>) -> Result<Discovering, Error> {
        if b.len() != 2 {
            Err(not_enough_data())
        } else {
            match DiscoveringType::spec_from_bits(b[0]) {
                Some(discovery_type) => {
                    if b[1] == 0x00 {
                        Ok(Discovering { discovery_type, discovering: false })
                    } else if b[1] == 0x01 {
                        Ok(Discovering { discovery_type, discovering: true })
                    } else {
                        Err(invalid_value())
                    }
                },
                None => Err(invalid_value()),
            }
        }
    }

    proof fn lemma_unpack_exact_size(b: Seq<u8>) {
    }

    fn unpack(data: &[u8]) -> (r: Result<Discovering, Error>) {
        if data.len() != 2 {
            return Err(err_not_enough_data());
        }
        let discovery_type = match DiscoveringType::from_bits(data[0]) {
            Some(t) => t,
            None => return Err(err_invalid_value()),
        };
        let discovering = match data[1] {
            0x00 => false,
            0x01 => true,
            _ => return Err(err_invalid_value()),
        };
        Ok(Discovering { discovery_type, discovering })
    }
}

} // verus!
