use bt_mgmt::class_of_device::{
    DeviceClass, DeviceClassComputer, MajorDeviceClass, MajorServiceClass, SERVICE_CAPTURING,
    SERVICE_OBJECT_TRANSFER, SERVICE_RENDERING,
};
use bt_mgmt::pack::UnpackFixed;
use bt_mgmt::{ClassOfDevice, Error, HciError, HciErrorKind};

#[test]
fn unpack() {
    let cod = ClassOfDevice::unpack(&[0x00, 0x00, 0x00]).unwrap();
    assert_eq!(cod.format_code(), 0);
    assert_eq!(cod.major_device_class(), MajorDeviceClass::Miscellaneous);
    assert_eq!(cod.major_service_class(), MajorServiceClass::empty());

    let cod = ClassOfDevice::unpack(&[0x04, 0x01, 0x14]).unwrap();
    assert_eq!(cod.format_code(), 0);
    assert_eq!(cod.major_device_class(), MajorDeviceClass::Computer);
    assert_eq!(
        cod.device_class(),
        DeviceClass::Computer(DeviceClassComputer::Workstation)
    );
    assert_eq!(
        cod.major_service_class(),
        MajorServiceClass {
            bits: SERVICE_RENDERING | SERVICE_OBJECT_TRANSFER
        }
    );

    let cod = ClassOfDevice::unpack(&[0x04, 0x01, 0x1c]).unwrap();
    assert_eq!(cod.format_code(), 0);
    assert_eq!(cod.major_device_class(), MajorDeviceClass::Computer);
    assert_eq!(
        cod.device_class(),
        DeviceClass::Computer(DeviceClassComputer::Workstation)
    );
    assert_eq!(
        cod.major_service_class(),
        MajorServiceClass {
            bits: SERVICE_RENDERING | SERVICE_CAPTURING | SERVICE_OBJECT_TRANSFER
        }
    );
}

#[test]
fn class_of_device_truncated() {
    let r = ClassOfDevice::unpack(&[0x04, 0x01]);
    assert_eq!(
        r.unwrap_err(),
        Error::Hci(HciError {
            kind: HciErrorKind::NotEnoughData
        })
    );
    let r = ClassOfDevice::unpack(&[]);
    assert_eq!(
        r.unwrap_err(),
        Error::Hci(HciError {
            kind: HciErrorKind::NotEnoughData
        })
    );
    // A fixed decoder rejects an oversized buffer too.
    let r = ClassOfDevice::unpack(&[0x04, 0x01, 0x14, 0x00]);
    assert_eq!(
        r.unwrap_err(),
        Error::Hci(HciError {
            kind: HciErrorKind::NotEnoughData
        })
    );
}

#[test]
fn service_class_mask_operations() {
    let cod = ClassOfDevice::unpack(&[0x04, 0x01, 0x14]).unwrap();
    let mask = cod.major_service_class();
    assert!(mask.contains(MajorServiceClass {
        bits: SERVICE_RENDERING
    }));
    assert!(!mask.contains(MajorServiceClass {
        bits: SERVICE_CAPTURING
    }));
    assert_eq!(
        MajorServiceClass {
            bits: SERVICE_RENDERING
        }
        .union(MajorServiceClass {
            bits: SERVICE_OBJECT_TRANSFER
        }),
        mask
    );
    assert_eq!(mask.bits(), 0x14_0000);
}

#[test]
fn device_class_tables() {
    // Major class peripheral: minor splits into keyboard/pointer and kind.
    // Raw value: major = 5 (peripheral), minor = 0b01_0010 (keyboard bits
    // 01, kind 2 = gamepad) -> bits 2..7 = 0b010010 -> byte0 = 0b0100_1000.
    let cod = ClassOfDevice::unpack(&[0x48, 0x05, 0x00]).unwrap();
    assert_eq!(cod.major_device_class(), MajorDeviceClass::Peripheral);
    match cod.device_class() {
        DeviceClass::Peripheral((kp, p)) => {
            assert_eq!(
                kp,
                bt_mgmt::class_of_device::DeviceClassKeyboardPointingDevice::Keyboard
            );
            assert_eq!(p, bt_mgmt::class_of_device::DeviceClassPeripheral::Gamepad);
        }
        other => panic!("unexpected device class {:?}", other),
    }

    // Major class imaging has no minor table.
    let cod = ClassOfDevice::unpack(&[0x00, 0x06, 0x00]).unwrap();
    assert_eq!(cod.device_class(), DeviceClass::Imaging);

    // An unknown major code maps to the reserved catch-all.
    let cod = ClassOfDevice::unpack(&[0x00, 0x1e, 0x00]).unwrap();
    assert_eq!(cod.major_device_class(), MajorDeviceClass::Reserved);
}
