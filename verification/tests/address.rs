//! Addresses and address types.

use bt_mgmt::pack::UnpackFixed;
use bt_mgmt::{AddressInfo, AddressType, Error, HardwareAddress, HciError, HciErrorKind};

#[test]
fn address_info_unpack() {
    let info = AddressInfo::unpack(&[0x11, 0x22, 0x33, 0x44, 0x55, 0x66, 0x00]).unwrap();
    assert_eq!(
        info.address,
        HardwareAddress([0x11, 0x22, 0x33, 0x44, 0x55, 0x66])
    );
    assert_eq!(info.address_type, AddressType::BrEdr);
}

#[test]
fn address_info_invalid_type() {
    let r = AddressInfo::unpack(&[0x11, 0x22, 0x33, 0x44, 0x55, 0x66, 0x03]);
    assert_eq!(
        r.unwrap_err(),
        Error::Hci(HciError {
            kind: HciErrorKind::InvalidValue
        })
    );
}

#[test]
fn address_info_truncated() {
    let r = AddressInfo::unpack(&[0x11, 0x22, 0x33, 0x44, 0x55, 0x66]);
    assert_eq!(
        r.unwrap_err(),
        Error::Hci(HciError {
            kind: HciErrorKind::NotEnoughData
        })
    );
}

#[test]
fn address_type_wire_codes() {
    assert_eq!(AddressType::from_wire(0x00).unwrap(), AddressType::BrEdr);
    assert_eq!(AddressType::from_wire(0x01).unwrap(), AddressType::LePublic);
    assert_eq!(AddressType::from_wire(0x02).unwrap(), AddressType::LeRandom);
    assert!(AddressType::from_wire(0x03).is_err());
    assert_eq!(AddressType::LeRandom.to_wire(), 0x02);
}
