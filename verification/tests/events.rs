//! The envelope dispatcher and the composite event decoders.

use bt_mgmt::events::{
    CommandComplete, CommandStatus, DiscoveringType, Event, EventId, Settings, SETTINGS_LOW_ENERGY,
    SETTINGS_POWERED,
};
use bt_mgmt::pack::Unpack;
use bt_mgmt::{AddressType, Error, HardwareAddress, HciError, HciErrorKind, OperationId, Status};

fn not_enough_data() -> Error {
    Error::Hci(HciError {
        kind: HciErrorKind::NotEnoughData,
    })
}

fn invalid_value() -> Error {
    Error::Hci(HciError {
        kind: HciErrorKind::InvalidValue,
    })
}

#[test]
fn discovering_example() {
    // All three technology bits set, discovery running.
    let (event, used) = Event::unpack(EventId::Discovering, &[0x07, 0x01]).unwrap();
    assert_eq!(used, 2);
    match event {
        Event::Discovering(d) => {
            assert_eq!(d.discovery_type, DiscoveringType { bits: 0b0111 });
            assert!(d.discovering);
        }
        other => panic!("unexpected event {:?}", other),
    }

    // A discovering flag other than 0 or 1 is a protocol violation.
    let r = Event::unpack(EventId::Discovering, &[0x07, 0x02]);
    assert_eq!(r.unwrap_err(), invalid_value());

    // An unknown technology bit is a protocol violation too.
    let r = Event::unpack(EventId::Discovering, &[0x09, 0x01]);
    assert_eq!(r.unwrap_err(), invalid_value());

    // Shorter than the fixed size.
    let r = Event::unpack(EventId::Discovering, &[0x07]);
    assert_eq!(r.unwrap_err(), not_enough_data());
}

#[test]
fn command_complete_event() {
    // opcode 0x0003 (read index list), status success, two result bytes.
    let payload = [0x03, 0x00, 0x00, 0x01, 0x00];
    let (event, used) = Event::unpack(EventId::CommandComplete, &payload).unwrap();
    assert_eq!(used, 5);
    match event {
        Event::CommandComplete(c) => {
            assert_eq!(c.operation, OperationId::ReadIndexList);
            assert_eq!(c.status, Status::Success);
            assert_eq!(c.data, &[0x01, 0x00]);
        }
        other => panic!("unexpected event {:?}", other),
    }

    let r = CommandComplete::unpack(&[0x03, 0x00]);
    assert_eq!(r.unwrap_err(), not_enough_data());
}

#[test]
fn command_status_event() {
    // opcode 0x0023 (start discovery), status busy; trailing bytes are
    // left to the caller.
    let payload = [0x23, 0x00, 0x0a, 0x55];
    let (event, used) = Event::unpack(EventId::CommandStatus, &payload).unwrap();
    assert_eq!(used, 3);
    assert_eq!(
        event,
        Event::CommandStatus(CommandStatus {
            operation: OperationId::StartDiscovery,
            status: Status::Busy,
        })
    );

    let r = CommandStatus::unpack(&[0x23, 0x00]);
    assert_eq!(r.unwrap_err(), not_enough_data());
}

#[test]
fn device_found_event() {
    let payload = [
        0x11, 0x22, 0x33, 0x44, 0x55, 0x66, // address
        0x01, // address type: low energy, public
        0xc4, // rssi: -60
        0x01, 0x00, 0x00, 0x00, // flags
        0x03, 0x00, // blob length
        0x02, 0x01, 0x04, // one inquiry-response entry
    ];
    let (event, used) = Event::unpack(EventId::DeviceFound, &payload).unwrap();
    assert_eq!(used, 17);
    match event {
        Event::DeviceFound(d) => {
            assert_eq!(
                d.address_info.address,
                HardwareAddress([0x11, 0x22, 0x33, 0x44, 0x55, 0x66])
            );
            assert_eq!(d.address_info.address_type, AddressType::LePublic);
            assert_eq!(d.rssi, -60);
            assert_eq!(d.flags, 1);
            assert_eq!(d.data, &[0x02, 0x01, 0x04]);
        }
        other => panic!("unexpected event {:?}", other),
    }

    // The blob claims more bytes than remain.
    let short = [
        0x11, 0x22, 0x33, 0x44, 0x55, 0x66, 0x01, 0xc4, 0x01, 0x00, 0x00, 0x00, 0x04, 0x00, 0x02,
        0x01, 0x04,
    ];
    let r = Event::unpack(EventId::DeviceFound, &short);
    assert_eq!(r.unwrap_err(), not_enough_data());

    // Shorter than the fixed head.
    let r = Event::unpack(EventId::DeviceFound, &payload[..13]);
    assert_eq!(r.unwrap_err(), not_enough_data());

    // An unknown address type inside the head is a protocol violation.
    let bad = [
        0x11, 0x22, 0x33, 0x44, 0x55, 0x66, 0x03, 0xc4, 0x01, 0x00, 0x00, 0x00, 0x00, 0x00,
    ];
    let r = Event::unpack(EventId::DeviceFound, &bad);
    assert_eq!(r.unwrap_err(), invalid_value());
}

#[test]
fn new_settings_event() {
    let payload = [0x01, 0x02, 0x00, 0x00];
    let (event, used) = Event::unpack(EventId::NewSettings, &payload).unwrap();
    assert_eq!(used, 4);
    assert_eq!(
        event,
        Event::NewSettings(Settings {
            bits: SETTINGS_POWERED | SETTINGS_LOW_ENERGY
        })
    );

    // Bit 17 is outside the known set: the closed bitmask rejects it.
    let r = Event::unpack(EventId::NewSettings, &[0x00, 0x00, 0x02, 0x00]);
    assert_eq!(r.unwrap_err(), invalid_value());

    let r = Event::unpack(EventId::NewSettings, &[0x01, 0x02, 0x00]);
    assert_eq!(r.unwrap_err(), not_enough_data());
}

#[test]
fn controller_error_event() {
    let (event, used) = Event::unpack(EventId::ControllerError, &[0x42, 0x99]).unwrap();
    assert_eq!(used, 1);
    assert_eq!(event, Event::ControllerError(0x42));

    let r = Event::unpack(EventId::ControllerError, &[]);
    assert_eq!(r.unwrap_err(), not_enough_data());
}

#[test]
fn index_events_consume_nothing() {
    let (event, used) = Event::unpack(EventId::IndexAdded, &[0xaa]).unwrap();
    assert_eq!(used, 0);
    assert_eq!(event, Event::IndexAdded);

    let (event, used) = Event::unpack(EventId::IndexRemoved, &[]).unwrap();
    assert_eq!(used, 0);
    assert_eq!(event, Event::IndexRemoved);
}

#[test]
fn class_of_device_changed_event() {
    let (event, used) = Event::unpack(EventId::ClassOfDeviceChanged, &[0x04, 0x01, 0x14]).unwrap();
    assert_eq!(used, 3);
    match event {
        Event::ClassOfDeviceChanged(cod) => {
            assert_eq!(
                cod.major_device_class(),
                bt_mgmt::class_of_device::MajorDeviceClass::Computer
            );
        }
        other => panic!("unexpected event {:?}", other),
    }

    let r = Event::unpack(EventId::ClassOfDeviceChanged, &[0x04, 0x01]);
    assert_eq!(r.unwrap_err(), not_enough_data());
}

#[test]
fn unknown_event_id_is_preserved() {
    // An unrecognised identifier keeps its raw payload and consumes it
    // whole; this path never fails.
    let payload = [0xde, 0xad, 0xbe, 0xef];
    let (event, used) = Event::unpack(EventId::Other(0x4242), &payload).unwrap();
    assert_eq!(used, 4);
    assert_eq!(event, Event::Other((EventId::Other(0x4242), &payload[..])));

    // A known identifier without a composite decoder is preserved too.
    let (event, used) = Event::unpack(EventId::DeviceConnected, &payload).unwrap();
    assert_eq!(used, 4);
    assert_eq!(event, Event::Other((EventId::DeviceConnected, &payload[..])));
}
