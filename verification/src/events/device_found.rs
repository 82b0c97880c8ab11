//! The device-discovery event payload.

use vstd::prelude::*;

use crate::address_info::{AddressInfo, AddressInfoModel};
use crate::endian::{le16, le32, read_u16_le, read_u32_le};
use crate::error::{err_not_enough_data, not_enough_data, Error};
use crate::pack::{Unpack, UnpackFixed};

verus! {

/// A ghost-level discovered device.
pub struct DeviceFoundModel {
    pub address_info: AddressInfoModel,
    pub rssi: i8,
    pub flags: u32,
    pub data: Seq<u8>,
}

/// One discovered device: address info, signal strength, flags and a
/// length-prefixed trailing blob of inquiry-response bytes.  The blob
/// borrows from the buffer it was parsed from.
#[derive(Clone, Copy, Debug, PartialEq, Eq)]
pub struct DeviceFound<'a> {
    pub address_info: AddressInfo,
    pub rssi: i8,
    pub flags: u32,
    pub data: &'a [u8],
}

impl<'a> View for DeviceFound<'a> {
    type V = DeviceFoundModel;

    open spec fn view(&self) -> DeviceFoundModel {
        DeviceFoundModel {
            address_info: self.address_info@,
            rssi: self.rssi,
            flags: self.flags,
            data: self.data@,
        }
    }
}

impl<'a> Unpack<'a> for DeviceFound<'a> {
    open spec fn spec_min_size() -> int {
        14
    }

    /// `address_info:7, rssi:i8, flags:u32, eir_data_length:u16`, then
    /// exactly `eir_data_length` blob bytes; a blob claiming more bytes
    /// than remain is rejected.
    open spec fn spec_unpack(b: Seq<u8>) -> Result<(DeviceFoundModel, int), Error> {
        if b.len() < 14 {
            Err(not_enough_data())
        } else {
            match <AddressInfo as UnpackFixed>::spec_unpack(b.subrange(0, 7)) {
                Err(e) => Err(e),
                Ok(address_info) => {
                    let length = le16(b.subrange(12, 14));
                    if 14 + length > b.len() {
                        Err(not_enough_data())
                    } else {
                        Ok(
                            (
                                DeviceFoundModel {
                                    address_info,
                                    rssi: b[7] as i8,
                                    flags: le32(b.subrange(8, 12)) as u32,
                                    data: b.subrange(14, 14 + length),
                                },
                                14 + length,
                            ),
                        )
                    }
                },
            }
        }
    }

    proof fn lemma_unpack_min_size(b: Seq<u8>) {
    }

    fn unpack(data: &'a [u8]) -> (r: Result<(DeviceFound<'a>, usize), Error>) {
        if data.len() < 14 {
            return Err(err_not_enough_data());
        }
        let address_info = match AddressInfo::unpack(
            vstd::slice::slice_subrange(data, 0, 7),
        ) {
            Ok(a) => a,
            Err(e) => return Err(e),
        };
        let rssi = data[7] as i8;
        let flags = read_u32_le(data, 8);
        let length = read_u16_le(data, 12) as usize;
        let end = 14 + length;
        if end > data.len() {
            return Err(err_not_enough_data());
        }
        let blob = vstd::slice::slice_subrange(data, 14, end);
        Ok((DeviceFound { address_info, rssi, flags, data: blob }, end))
    }
}

} // verus!
