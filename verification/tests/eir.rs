//! The length-prefixed sub-record parser.

use bt_mgmt::eir::{DataType, EirEntry};
use bt_mgmt::pack::Unpack;
use bt_mgmt::{Error, HciError, HciErrorKind};

fn not_enough_data() -> Error {
    Error::Hci(HciError {
        kind: HciErrorKind::NotEnoughData,
    })
}

#[test]
fn eir_entry_example() {
    // length=2 covers the type byte plus one data byte: the entry occupies
    // 3 bytes, whatever follows it.
    let buffer = [0x02, 0x01, 0x04, 0xaa, 0xbb];
    let (entry, used) = EirEntry::unpack(&buffer).unwrap();
    assert_eq!(used, 3);
    assert_eq!(entry.data_type, DataType::Flags);
    assert_eq!(entry.data, &[0x04]);
}

#[test]
fn eir_entry_empty_data() {
    // length=1 covers only the type byte: valid, with an empty data span.
    let buffer = [0x01, 0x0a];
    let (entry, used) = EirEntry::unpack(&buffer).unwrap();
    assert_eq!(used, 2);
    assert_eq!(entry.data_type, DataType::TxPowerLevel);
    assert_eq!(entry.data, &[] as &[u8]);
}

#[test]
fn eir_entry_zero_length() {
    // A zero length byte cannot cover its own type byte.
    let r = EirEntry::unpack(&[0x00, 0x01, 0x02]);
    assert_eq!(
        r.unwrap_err(),
        Error::Hci(HciError {
            kind: HciErrorKind::InvalidLength
        })
    );
}

#[test]
fn eir_entry_truncated() {
    assert_eq!(EirEntry::unpack(&[]).unwrap_err(), not_enough_data());
    assert_eq!(EirEntry::unpack(&[0x02]).unwrap_err(), not_enough_data());
    // The entry claims two data bytes but only one follows.
    assert_eq!(
        EirEntry::unpack(&[0x03, 0x01, 0x04]).unwrap_err(),
        not_enough_data()
    );
}

#[test]
fn eir_sequence_total_consumption() {
    // Three valid entries back to back: the sequence decoder consumes the
    // whole buffer, no leftover, no error.
    let buffer = [
        0x02, 0x01, 0x04, // flags, one byte
        0x01, 0x0a, // tx power, empty data
        0x04, 0x09, 0x61, 0x62, 0x63, // complete local name "abc"
    ];
    let entries = EirEntry::unpack_all(&buffer).unwrap();
    assert_eq!(entries.len(), 3);
    assert_eq!(entries[0].data_type, DataType::Flags);
    assert_eq!(entries[0].data, &[0x04]);
    assert_eq!(entries[1].data_type, DataType::TxPowerLevel);
    assert_eq!(entries[1].data, &[] as &[u8]);
    assert_eq!(entries[2].data_type, DataType::CompleteLocalName);
    assert_eq!(entries[2].data, &[0x61, 0x62, 0x63]);
}

#[test]
fn eir_sequence_empty_buffer() {
    let entries = EirEntry::unpack_all(&[]).unwrap();
    assert_eq!(entries.len(), 0);
}

#[test]
fn eir_sequence_trailing_truncation() {
    // The second entry claims more bytes than remain: the sequence aborts.
    let buffer = [0x02, 0x01, 0x04, 0x05, 0x09, 0x61];
    assert_eq!(
        EirEntry::unpack_all(&buffer).unwrap_err(),
        not_enough_data()
    );
}
