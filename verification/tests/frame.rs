//! Command-frame encoding and the error constructors.

use bt_mgmt::frame::{CommandFrame, FrameHeader};
use bt_mgmt::pack::{Pack, PackFixed, UnpackFixed};
use bt_mgmt::{Error, HciError, HciErrorKind};

#[test]
fn command_frame_pack() {
    let frame = CommandFrame {
        opcode: 0x0023,
        index: 0x0000,
        data: &[0x07],
    };
    let mut buffer = vec![0u8; 16];
    let written = frame.pack(&mut buffer).unwrap();
    assert_eq!(written, 7);
    assert_eq!(
        &buffer[..7],
        &[0x23, 0x00, 0x00, 0x00, 0x01, 0x00, 0x07]
    );
    // Bytes past the frame are left as they were.
    assert_eq!(&buffer[7..], &[0u8; 9]);
}

#[test]
fn command_frame_empty_body() {
    let frame = CommandFrame {
        opcode: 0x0003,
        index: 0xffff,
        data: &[],
    };
    let mut buffer = vec![0u8; 6];
    let written = frame.pack(&mut buffer).unwrap();
    assert_eq!(written, 6);
    assert_eq!(buffer, vec![0x03, 0x00, 0xff, 0xff, 0x00, 0x00]);
}

#[test]
fn command_frame_buffer_too_short() {
    let frame = CommandFrame {
        opcode: 0x0003,
        index: 0x0000,
        data: &[0x01, 0x02],
    };
    let mut buffer = vec![0u8; 7];
    let r = frame.pack(&mut buffer);
    assert_eq!(
        r.unwrap_err(),
        Error::Hci(HciError {
            kind: HciErrorKind::NotEnoughData
        })
    );
    // A rejected buffer is left unchanged.
    assert_eq!(buffer, vec![0u8; 7]);
}

#[test]
fn frame_header_pack_wrong_size() {
    let header = FrameHeader {
        code: 1,
        index: 2,
        length: 3,
    };
    let mut buffer = vec![0u8; 5];
    assert!(header.pack(&mut buffer).is_err());
    assert_eq!(buffer, vec![0u8; 5]);
}

#[test]
fn frame_header_unpack_wrong_size() {
    assert!(FrameHeader::unpack(&[0x01, 0x00, 0x00, 0x00, 0x00]).is_err());
    assert!(FrameHeader::unpack(&[0x01, 0x00, 0x00, 0x00, 0x00, 0x00, 0x00]).is_err());
    let header = FrameHeader::unpack(&[0x12, 0x00, 0x01, 0x00, 0x05, 0x00]).unwrap();
    assert_eq!(
        header,
        FrameHeader {
            code: 0x0012,
            index: 0x0001,
            length: 0x0005,
        }
    );
}

#[test]
fn error_kinds() {
    let err = HciError::new(HciErrorKind::InvalidLength);
    assert_eq!(err.kind, HciErrorKind::InvalidLength);
    let err: Error = Error::from(err);
    assert_eq!(err.kind(), HciErrorKind::InvalidLength);
}
