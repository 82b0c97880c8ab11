//! Wire round trips of the open enumerations and the frame header.

use bt_mgmt::eir::DataType;
use bt_mgmt::events::EventId;
use bt_mgmt::frame::FrameHeader;
use bt_mgmt::pack::{PackFixed, UnpackFixed};
use bt_mgmt::{OperationId, Status};

#[test]
fn data_type_roundtrip() {
    // Every representable wire byte comes back unchanged.
    for value in 0..=255u8 {
        let decoded = DataType::from_wire(value);
        assert_eq!(decoded.to_wire(), value);
    }
    assert_eq!(DataType::from_wire(0x01), DataType::Flags);
    assert_eq!(DataType::from_wire(0xff), DataType::ManufacturerData);
    // 0x13 sits in a gap of the known table.
    assert_eq!(DataType::from_wire(0x13), DataType::Other(0x13));
}

#[test]
fn event_id_roundtrip() {
    for value in 0..=0xffffu16 {
        let decoded = EventId::from_wire(value);
        assert_eq!(decoded.to_wire(), value);
    }
    assert_eq!(EventId::from_wire(0x0012), EventId::DeviceFound);
    assert_eq!(EventId::from_wire(0x0027), EventId::Other(0x0027));
}

#[test]
fn operation_id_roundtrip() {
    for value in 0..=0xffffu16 {
        let decoded = OperationId::from_wire(value);
        assert_eq!(decoded.to_wire(), value);
    }
    assert_eq!(OperationId::from_wire(0x0003), OperationId::ReadIndexList);
    assert_eq!(OperationId::from_wire(0x0023), OperationId::StartDiscovery);
    assert_eq!(OperationId::from_wire(0x1234), OperationId::Other(0x1234));
}

#[test]
fn status_roundtrip() {
    for value in 0..=255u8 {
        let decoded = Status::from_wire(value);
        assert_eq!(decoded.to_wire(), value);
    }
    assert_eq!(Status::from_wire(0x00), Status::Success);
    assert_eq!(Status::from_wire(0xd0), Status::Other(0xd0));
}

#[test]
fn frame_header_roundtrip() {
    let header = FrameHeader {
        code: 0x0023,
        index: 0xffff,
        length: 0x0102,
    };
    let mut buffer = vec![0u8; 6];
    header.pack(&mut buffer).unwrap();
    assert_eq!(buffer, vec![0x23, 0x00, 0xff, 0xff, 0x02, 0x01]);
    let back = FrameHeader::unpack(&buffer).unwrap();
    assert_eq!(back, header);
}
