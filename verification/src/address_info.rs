//! Device addresses and their link technology.

use vstd::prelude::*;

use crate::error::{err_invalid_value, err_not_enough_data, invalid_value, not_enough_data, Error};
use crate::pack::UnpackFixed;

verus! {

/// A 6-byte device address.
#[derive(Clone, Copy, Debug, PartialEq, Eq)]
pub struct HardwareAddress(pub [u8; 6]);

impl View for HardwareAddress {
    type V = Seq<u8>;

    open spec fn view(&self) -> Seq<u8> {
        self.0@
    }
}

impl HardwareAddress {
    /// Copy an address out of a 6-byte buffer.
    pub fn from_bytes(data: &[u8]) -> (r: HardwareAddress)
        requires
            data@.len() == 6,
        ensures
            r@ == data@,
    {
        let r = HardwareAddress([data[0], data[1], data[2], data[3], data[4], data[5]]);
        proof {
            assert(r@ =~= data@);
        }
        r
    }
}

/// The link technology an address belongs to: a closed enumeration over
/// one wire byte.  Any byte outside the known set is a protocol violation.
#[derive(Clone, Copy, Debug, PartialEq, Eq, Structural)]
pub enum AddressType {
    /// Basic rate / enhanced data rate.
    BrEdr,
    /// Low energy, public address.
    LePublic,
    /// Low energy, random address.
    LeRandom,
}

impl AddressType {
    /// The wire byte of each variant.
    pub open spec fn wire(self) -> u8 {
        match self {
            AddressType::BrEdr => 0x00,
            AddressType::LePublic => 0x01,
            AddressType::LeRandom => 0x02,
        }
    }

    /// The variant each wire byte names; a byte outside the known set is
    /// `InvalidValue`.
    pub open spec fn spec_from_wire(value: u8) -> Result<AddressType, Error> {
        if value == 0x00 {
            Ok(AddressType::BrEdr)
        } else if value == 0x01 {
            Ok(AddressType::LePublic)
        } else if value == 0x02 {
            Ok(AddressType::LeRandom)
        } else {
            Err(invalid_value())
        }
    }

    /// Encode to the wire byte.  Total: every variant has a code.
    pub fn to_wire(self) -> (r: u8)
        ensures
            r == self.wire(),
    {
        match self {
            AddressType::BrEdr => 0x00,
            AddressType::LePublic => 0x01,
            AddressType::LeRandom => 0x02,
        }
    }

    /// Decode a wire byte; total only over the known set.
    pub fn from_wire(value: u8) -> (r: Result<AddressType, Error>)
        ensures
            r == AddressType::spec_from_wire(value),
    {
        match value {
            0x00 => Ok(AddressType::BrEdr),
            0x01 => Ok(AddressType::LePublic),
            0x02 => Ok(AddressType::LeRandom),
            _ => Err(err_invalid_value()),
        }
    }
}

/// Decoding the code of any address type gives that address type back.
pub proof fn lemma_address_type_roundtrip(t: AddressType)
    ensures
        AddressType::spec_from_wire(t.wire()) == Ok::<AddressType, Error>(t),
{
}

/// A ghost-level address-plus-type pair.
pub struct AddressInfoModel {
    pub address: Seq<u8>,
    pub address_type: AddressType,
}

/// A device address together with its link technology: exactly 7 bytes on
/// the wire.
#[derive(Clone, Copy, Debug, PartialEq, Eq)]
pub struct AddressInfo {
    pub address: HardwareAddress,
    pub address_type: AddressType,
}

impl View for AddressInfo {
    type V = AddressInfoModel;

    open spec fn view(&self) -> AddressInfoModel {
        AddressInfoModel { address: self.address@, address_type: self.address_type }
    }
}

impl UnpackFixed for AddressInfo {
    open spec fn spec_size() -> int {
        7
    }

    open spec fn spec_unpack(b: Seq<u8>) -> Result<AddressInfoModel, Error> {
        if b.len() != 7 {
            Err(not_enough_data())
        } else {
            match AddressType::spec_from_wire(b[6]) {
                Ok(t) => Ok(AddressInfoModel { address: b.subrange(0, 6), address_type: t }),
                Err(e) => Err(e),
            }
        }
    }

    proof fn lemma_unpack_exact_size(b: Seq<u8>) {
    }

    fn unpack(data: &[u8]) -> (r: Result<AddressInfo, Error>) {
        if data.len() != 7 {
            return Err(err_not_enough_data());
        }
        let address = HardwareAddress::from_bytes(vstd::slice::slice_subrange(data, 0, 6));
        let address_type = match AddressType::from_wire(data[6]) {
            Ok(t) => t,
            Err(e) => return Err(e),
        };
        Ok(AddressInfo { address, address_type })
    }
}

} // verus!
