//! Extended inquiry response: a flat sequence of length-prefixed, typed
//! sub-records embedded in a discovery payload.
//!
//! Each entry is `length:u8, type:u8, data:[length - 1]u8`: the length byte
//! counts the type byte plus the data, so a whole entry occupies
//! `length + 1` bytes.  A length byte of zero is internally inconsistent
//! and rejected as `InvalidLength`; an entry claiming more bytes than
//! remain is `NotEnoughData`.

use vstd::prelude::*;

use crate::error::{
    err_invalid_length, err_not_enough_data, invalid_length, not_enough_data, Error,
};
use crate::pack::Unpack;

verus! {

/// The type of one sub-record: an open enumeration over one wire byte.
#[derive(Clone, Copy, Debug, PartialEq, Eq, Structural)]
pub enum DataType {
    Flags,
    IncompleteServiceClassUUIDs16,
    CompleteServiceClassUUIDs16,
    IncompleteServiceClassUUIDs32,
    CompleteServiceClassUUIDs32,
    IncompleteServiceClassUUIDs128,
    CompleteServiceClassUUIDs128,
    ShortenedLocalName,
    CompleteLocalName,
    TxPowerLevel,
    ClassOfDevice,
    SimplePairingHash192,
    SimplePairingRandomizer192,
    SecurityManagerTemporaryKey,
    SecurityManagerOutOfBandFlags,
    SlaveConnectionIntervalRange,
    ServiceSolicitationUUIDs16,
    ServiceSolicitationUUIDs128,
    ServiceDataUUIDs16,
    PublicTargetAddress,
    RandomTargetAddress,
    Appearance,
    AdvertisingInterval,
    LowEnergyBluetoothDeviceAddress,
    LowEnergyRole,
    SimplePairingHash256,
    SimplePairingRandomizer256,
    ServiceSolicitationUUIDs32,
    ServiceDataUUIDs32,
    ServiceDataUUIDs128,
    LowEnergySecureConnectionsConfirmation,
    LowEnergySecureConnectionsRandom,
    Uri,
    IndoorPositioning,
    TransportDiscoveryData,
    LowEnergySupportedFeatures,
    ChannelMapUpdateIndication,
    ProvisioningBearerAdvertisement,
    MeshMessage,
    MeshBeacon,
    BroadcastIsochronousGroupInformation,
    BroadcastCode,
    InformationData3D,
    ManufacturerData,
    /// A code outside the known set, kept as it arrived.
    Other(u8),
}

impl DataType {
    /// The wire byte of each variant; `Other` carries its own code.
    pub open spec fn wire(self) -> u8 {
        match self {
            DataType::Flags => 0x01,
            DataType::IncompleteServiceClassUUIDs16 => 0x02,
            DataType::CompleteServiceClassUUIDs16 => 0x03,
            DataType::IncompleteServiceClassUUIDs32 => 0x04,
            DataType::CompleteServiceClassUUIDs32 => 0x05,
            DataType::IncompleteServiceClassUUIDs128 => 0x06,
            DataType::CompleteServiceClassUUIDs128 => 0x07,
            DataType::ShortenedLocalName => 0x08,
            DataType::CompleteLocalName => 0x09,
            DataType::TxPowerLevel => 0x0a,
            DataType::ClassOfDevice => 0x0d,
            DataType::SimplePairingHash192 => 0x0e,
            DataType::SimplePairingRandomizer192 => 0x0f,
            DataType::SecurityManagerTemporaryKey => 0x10,
            DataType::SecurityManagerOutOfBandFlags => 0x11,
            DataType::SlaveConnectionIntervalRange => 0x12,
            DataType::ServiceSolicitationUUIDs16 => 0x14,
            DataType::ServiceSolicitationUUIDs128 => 0x15,
            DataType::ServiceDataUUIDs16 => 0x16,
            DataType::PublicTargetAddress => 0x17,
            DataType::RandomTargetAddress => 0x18,
            DataType::Appearance => 0x19,
            DataType::AdvertisingInterval => 0x1a,
            DataType::LowEnergyBluetoothDeviceAddress => 0x1b,
            DataType::LowEnergyRole => 0x1c,
            DataType::SimplePairingHash256 => 0x1d,
            DataType::SimplePairingRandomizer256 => 0x1e,
            DataType::ServiceSolicitationUUIDs32 => 0x1f,
            DataType::ServiceDataUUIDs32 => 0x20,
            DataType::ServiceDataUUIDs128 => 0x21,
            DataType::LowEnergySecureConnectionsConfirmation => 0x22,
            DataType::LowEnergySecureConnectionsRandom => 0x23,
            DataType::Uri => 0x24,
            DataType::IndoorPositioning => 0x25,
            DataType::TransportDiscoveryData => 0x26,
            DataType::LowEnergySupportedFeatures => 0x27,
            DataType::ChannelMapUpdateIndication => 0x28,
            DataType::ProvisioningBearerAdvertisement => 0x29,
            DataType::MeshMessage => 0x2a,
            DataType::MeshBeacon => 0x2b,
            DataType::BroadcastIsochronousGroupInformation => 0x2c,
            DataType::BroadcastCode => 0x2d,
            DataType::InformationData3D => 0x3d,
            DataType::ManufacturerData => 0xff,
            DataType::Other(v) => v,
        }
    }

    /// The variant each wire byte names; total over all bytes.
    pub open spec fn spec_from_wire(value: u8) -> DataType {
        if value == 0x01 {
            DataType::Flags
        } else if value == 0x02 {
            DataType::IncompleteServiceClassUUIDs16
        } else if value == 0x03 {
            DataType::CompleteServiceClassUUIDs16
        } else if value == 0x04 {
            DataType::IncompleteServiceClassUUIDs32
        } else if value == 0x05 {
            DataType::CompleteServiceClassUUIDs32
        } else if value == 0x06 {
            DataType::IncompleteServiceClassUUIDs128
        } else if value == 0x07 {
            DataType::CompleteServiceClassUUIDs128
        } else if value == 0x08 {
            DataType::ShortenedLocalName
        } else if value == 0x09 {
            DataType::CompleteLocalName
        } else if value == 0x0a {
            DataType::TxPowerLevel
        } else if value == 0x0d {
            DataType::ClassOfDevice
        } else if value == 0x0e {
            DataType::SimplePairingHash192
        } else if value == 0x0f {
            DataType::SimplePairingRandomizer192
        } else if value == 0x10 {
            DataType::SecurityManagerTemporaryKey
        } else if value == 0x11 {
            DataType::SecurityManagerOutOfBandFlags
        } else if value == 0x12 {
            DataType::SlaveConnectionIntervalRange
        } else if value == 0x14 {
            DataType::ServiceSolicitationUUIDs16
        } else if value == 0x15 {
            DataType::ServiceSolicitationUUIDs128
        } else if value == 0x16 {
            DataType::ServiceDataUUIDs16
        } else if value == 0x17 {
            DataType::PublicTargetAddress
        } else if value == 0x18 {
            DataType::RandomTargetAddress
        } else if value == 0x19 {
            DataType::Appearance
        } else if value == 0x1a {
            DataType::AdvertisingInterval
        } else if value == 0x1b {
            DataType::LowEnergyBluetoothDeviceAddress
        } else if value == 0x1c {
            DataType::LowEnergyRole
        } else if value == 0x1d {
            DataType::SimplePairingHash256
        } else if value == 0x1e {
            DataType::SimplePairingRandomizer256
        } else if value == 0x1f {
            DataType::ServiceSolicitationUUIDs32
        } else if value == 0x20 {
            DataType::ServiceDataUUIDs32
        } else if value == 0x21 {
            DataType::ServiceDataUUIDs128
        } else if value == 0x22 {
            DataType::LowEnergySecureConnectionsConfirmation
        } else if value == 0x23 {
            DataType::LowEnergySecureConnectionsRandom
        } else if value == 0x24 {
            DataType::Uri
        } else if value == 0x25 {
            DataType::IndoorPositioning
        } else if value == 0x26 {
            DataType::TransportDiscoveryData
        } else if value == 0x27 {
            DataType::LowEnergySupportedFeatures
        } else if value == 0x28 {
            DataType::ChannelMapUpdateIndication
        } else if value == 0x29 {
            DataType::ProvisioningBearerAdvertisement
        } else if value == 0x2a {
            DataType::MeshMessage
        } else if value == 0x2b {
            DataType::MeshBeacon
        } else if value == 0x2c {
            DataType::BroadcastIsochronousGroupInformation
        } else if value == 0x2d {
            DataType::BroadcastCode
        } else if value == 0x3d {
            DataType::InformationData3D
        } else if value == 0xff {
            DataType::ManufacturerData
        } else {
            DataType::Other(value)
        }
    }

    /// Decode a wire byte.  Never fails: an unknown code becomes `Other`.
    pub fn from_wire(value: u8) -> (r: DataType)
        ensures
            r == DataType::spec_from_wire(value),
    {
        match value {
            0x01 => DataType::Flags,
            0x02 => DataType::IncompleteServiceClassUUIDs16,
            0x03 => DataType::CompleteServiceClassUUIDs16,
            0x04 => DataType::IncompleteServiceClassUUIDs32,
            0x05 => DataType::CompleteServiceClassUUIDs32,
            0x06 => DataType::IncompleteServiceClassUUIDs128,
            0x07 => DataType::CompleteServiceClassUUIDs128,
            0x08 => DataType::ShortenedLocalName,
            0x09 => DataType::CompleteLocalName,
            0x0a => DataType::TxPowerLevel,
            0x0d => DataType::ClassOfDevice,
            0x0e => DataType::SimplePairingHash192,
            0x0f => DataType::SimplePairingRandomizer192,
            0x10 => DataType::SecurityManagerTemporaryKey,
            0x11 => DataType::SecurityManagerOutOfBandFlags,
            0x12 => DataType::SlaveConnectionIntervalRange,
            0x14 => DataType::ServiceSolicitationUUIDs16,
            0x15 => DataType::ServiceSolicitationUUIDs128,
            0x16 => DataType::ServiceDataUUIDs16,
            0x17 => DataType::PublicTargetAddress,
            0x18 => DataType::RandomTargetAddress,
            0x19 => DataType::Appearance,
            0x1a => DataType::AdvertisingInterval,
            0x1b => DataType::LowEnergyBluetoothDeviceAddress,
            0x1c => DataType::LowEnergyRole,
            0x1d => DataType::SimplePairingHash256,
            0x1e => DataType::SimplePairingRandomizer256,
            0x1f => DataType::ServiceSolicitationUUIDs32,
            0x20 => DataType::ServiceDataUUIDs32,
            0x21 => DataType::ServiceDataUUIDs128,
            0x22 => DataType::LowEnergySecureConnectionsConfirmation,
            0x23 => DataType::LowEnergySecureConnectionsRandom,
            0x24 => DataType::Uri,
            0x25 => DataType::IndoorPositioning,
            0x26 => DataType::TransportDiscoveryData,
            0x27 => DataType::LowEnergySupportedFeatures,
            0x28 => DataType::ChannelMapUpdateIndication,
            0x29 => DataType::ProvisioningBearerAdvertisement,
            0x2a => DataType::MeshMessage,
            0x2b => DataType::MeshBeacon,
            0x2c => DataType::BroadcastIsochronousGroupInformation,
            0x2d => DataType::BroadcastCode,
            0x3d => DataType::InformationData3D,
            0xff => DataType::ManufacturerData,
            _ => DataType::Other(value),
        }
    }

    /// Encode to the wire byte; recovers the original code exactly, for the
    /// fallback variant too.
    pub fn to_wire(self) -> (r: u8)
        ensures
            r == self.wire(),
    {
        match self {
            DataType::Flags => 0x01,
            DataType::IncompleteServiceClassUUIDs16 => 0x02,
            DataType::CompleteServiceClassUUIDs16 => 0x03,
            DataType::IncompleteServiceClassUUIDs32 => 0x04,
            DataType::CompleteServiceClassUUIDs32 => 0x05,
            DataType::IncompleteServiceClassUUIDs128 => 0x06,
            DataType::CompleteServiceClassUUIDs128 => 0x07,
            DataType::ShortenedLocalName => 0x08,
            DataType::CompleteLocalName => 0x09,
            DataType::TxPowerLevel => 0x0a,
            DataType::ClassOfDevice => 0x0d,
            DataType::SimplePairingHash192 => 0x0e,
            DataType::SimplePairingRandomizer192 => 0x0f,
            DataType::SecurityManagerTemporaryKey => 0x10,
            DataType::SecurityManagerOutOfBandFlags => 0x11,
            DataType::SlaveConnectionIntervalRange => 0x12,
            DataType::ServiceSolicitationUUIDs16 => 0x14,
            DataType::ServiceSolicitationUUIDs128 => 0x15,
            DataType::ServiceDataUUIDs16 => 0x16,
            DataType::PublicTargetAddress => 0x17,
            DataType::RandomTargetAddress => 0x18,
            DataType::Appearance => 0x19,
            DataType::AdvertisingInterval => 0x1a,
            DataType::LowEnergyBluetoothDeviceAddress => 0x1b,
            DataType::LowEnergyRole => 0x1c,
            DataType::SimplePairingHash256 => 0x1d,
            DataType::SimplePairingRandomizer256 => 0x1e,
            DataType::ServiceSolicitationUUIDs32 => 0x1f,
            DataType::ServiceDataUUIDs32 => 0x20,
            DataType::ServiceDataUUIDs128 => 0x21,
            DataType::LowEnergySecureConnectionsConfirmation => 0x22,
            DataType::LowEnergySecureConnectionsRandom => 0x23,
            DataType::Uri => 0x24,
            DataType::IndoorPositioning => 0x25,
            DataType::TransportDiscoveryData => 0x26,
            DataType::LowEnergySupportedFeatures => 0x27,
            DataType::ChannelMapUpdateIndication => 0x28,
            DataType::ProvisioningBearerAdvertisement => 0x29,
            DataType::MeshMessage => 0x2a,
            DataType::MeshBeacon => 0x2b,
            DataType::BroadcastIsochronousGroupInformation => 0x2c,
            DataType::BroadcastCode => 0x2d,
            DataType::InformationData3D => 0x3d,
            DataType::ManufacturerData => 0xff,
            DataType::Other(v) => v,
        }
    }
}

/// The open-enumeration round trip: decoding any wire byte and encoding
/// the result gives the byte back.
pub proof fn lemma_data_type_roundtrip(value: u8)
    ensures
        DataType::spec_from_wire(value).wire() == value,
{
}

/// A ghost-level sub-record: its type and its data bytes.
pub struct EirEntryModel {
    pub data_type: DataType,
    pub data: Seq<u8>,
}

/// One decoded sub-record.  Its data borrows from the buffer it was parsed
/// from and never outlives it.
#[derive(Clone, Copy, Debug, PartialEq, Eq)]
pub struct EirEntry<'a> {
    pub data_type: DataType,
    pub data: &'a [u8],
}

impl<'a> View for EirEntry<'a> {
    type V = EirEntryModel;

    open spec fn view(&self) -> EirEntryModel {
        EirEntryModel { data_type: self.data_type, data: self.data@ }
    }
}

impl<'a> Unpack<'a> for EirEntry<'a> {
    open spec fn spec_min_size() -> int {
        2
    }

    open spec fn spec_unpack(b: Seq<u8>) -> Result<(EirEntryModel, int), Error> {
        if b.len() < 2 {
            Err(not_enough_data())
        } else {
            let length = b[0] as int;
            if length < 1 {
                Err(invalid_length())
            } else if length + 1 > b.len() {
                Err(not_enough_data())
            } else {
                Ok(
                    (
                        EirEntryModel {
                            data_type: DataType::spec_from_wire(b[1]),
                            data: b.subrange(2, length + 1),
                        },
                        length + 1,
                    ),
                )
            }
        }
    }

    proof fn lemma_unpack_min_size(b: Seq<u8>) {
    }

    fn unpack(data: &'a [u8]) -> (r: Result<(EirEntry<'a>, usize), Error>) {
        if data.len() < 2 {
            return Err(err_not_enough_data());
        }
        let length = data[0] as usize;
        if length < 1 {
            return Err(err_invalid_length());
        }
        if length + 1 > data.len() {
            return Err(err_not_enough_data());
        }
        let data_type = DataType::from_wire(data[1]);
        let payload = vstd::slice::slice_subrange(data, 2, length + 1);
        Ok((EirEntry { data_type, data: payload }, length + 1))
    }
}

/// The abstract decoder of a whole buffer: entries back to back until the
/// end, an empty buffer giving the empty sequence.  Stops with the first
/// entry's error if one is malformed.
pub open spec fn spec_eir_unpack_all(b: Seq<u8>) -> Result<Seq<EirEntryModel>, Error>
    decreases b.len(),
{
    if b.len() == 0 {
        Ok(Seq::empty())
    } else {
        match <EirEntry as Unpack>::spec_unpack(b) {
            Ok(p) => {
                // The guard bounds the recursion; an entry decoder's count
                // always lies inside it (its minimum-size law), so the
                // rejecting branch is never taken.
                if 0 < p.1 <= b.len() {
                    match spec_eir_unpack_all(b.skip(p.1)) {
                        Ok(rest) => Ok(seq![p.0] + rest),
                        Err(e) => Err(e),
                    }
                } else {
                    Err(invalid_length())
                }
            },
            Err(e) => Err(e),
        }
    }
}

impl<'a> EirEntry<'a> {
    /// Decode a whole buffer as a back-to-back sequence of entries,
    /// consuming exactly the buffer length.
    pub fn unpack_all(data: &'a [u8]) -> (r: Result<Vec<EirEntry<'a>>, Error>)
        ensures
            match (r, spec_eir_unpack_all(data@)) {
                (Ok(v), Ok(ms)) => v@.len() == ms.len() && forall|i: int|
                    0 <= i < ms.len() ==> #[trigger] v@[i]@ == ms[i],
                (Err(e), Err(m)) => e == m,
                _ => false,
            },
    {
        let n = data.len();
        let mut entries: Vec<EirEntry<'a>> = Vec::new();
        let mut offset: usize = 0;
        proof {
            assert(data@.skip(0) =~= data@);
            if let Ok(rest) = spec_eir_unpack_all(data@) {
                assert(entries@.map_values(|e: EirEntry<'a>| e@) + rest =~= rest);
            }
        }
        while offset < n
            invariant
                offset <= n,
                n == data@.len(),
                match spec_eir_unpack_all(data@.skip(offset as int)) {
                    Ok(rest) => spec_eir_unpack_all(data@) == Ok::<Seq<EirEntryModel>, Error>(
                        entries@.map_values(|e: EirEntry<'a>| e@) + rest,
                    ),
                    Err(m) => spec_eir_unpack_all(data@) == Err::<Seq<EirEntryModel>, Error>(m),
                },
            decreases n - offset,
        {
            let ghost old_entries = entries@;
            let ghost old_offset = offset as int;
            let tail = vstd::slice::slice_subrange(data, offset, n);
            proof {
                assert(tail@ =~= data@.skip(offset as int));
                <EirEntry as Unpack>::lemma_unpack_min_size(tail@);
            }
            let (entry, used) = match EirEntry::unpack(tail) {
                Ok(p) => p,
                Err(e) => {
                    return Err(e);
                },
            };
            entries.push(entry);
            offset = offset + used;
            proof {
                let f = |e: EirEntry<'a>| e@;
                assert(data@.skip(old_offset).skip(used as int) =~= data@.skip(offset as int));
                assert(entries@ =~= old_entries + seq![entry]);
                assert(entries@.map_values(f) =~= old_entries.map_values(f) + seq![entry@]);
                match spec_eir_unpack_all(data@.skip(offset as int)) {
                    Ok(rest2) => {
                        assert(spec_eir_unpack_all(data@.skip(old_offset)) == Ok::<
                            Seq<EirEntryModel>,
                            Error,
                        >(seq![entry@] + rest2));
                        assert(entries@.map_values(f) + rest2 =~= old_entries.map_values(f) + (
                        seq![entry@] + rest2));
                    },
                    Err(m) => {
                        assert(spec_eir_unpack_all(data@.skip(old_offset)) == Err::<
                            Seq<EirEntryModel>,
                            Error,
                        >(m));
                    },
                }
            }
        }
        proof {
            assert(data@.skip(offset as int) =~= Seq::<u8>::empty());
            assert(spec_eir_unpack_all(data@.skip(offset as int)) == Ok::<
                Seq<EirEntryModel>,
                Error,
            >(Seq::empty()));
            assert(entries@.map_values(|e: EirEntry<'a>| e@) + Seq::<EirEntryModel>::empty()
                =~= entries@.map_values(|e: EirEntry<'a>| e@));
        }
        Ok(entries)
    }
}

/// The wire bytes of one well-formed entry: the length byte (type byte
/// plus data), the type byte, then the data.
pub open spec fn spec_eir_pack(e: EirEntryModel) -> Seq<u8> {
    seq![(e.data.len() + 1) as u8, e.data_type.wire()] + e.data
}

/// An entry that can stand on the wire: its data fits behind the one-byte
/// length, and its type is canonical (decoding its code gives it back, so
/// it carries no known code inside the fallback variant).
pub open spec fn eir_entry_wf(e: EirEntryModel) -> bool {
    &&& e.data.len() + 1 <= 255
    &&& DataType::spec_from_wire(e.data_type.wire()) == e.data_type
}

/// The concatenation of the wire bytes of a sequence of entries.
pub open spec fn spec_eir_pack_all(entries: Seq<EirEntryModel>) -> Seq<u8>
    decreases entries.len(),
{
    if entries.len() == 0 {
        Seq::empty()
    } else {
        spec_eir_pack(entries[0]) + spec_eir_pack_all(entries.skip(1))
    }
}

/// Total consumption of an entry sequence: a buffer built by concatenating
/// any well-formed entries decodes back to exactly those entries, with no
/// leftover, no overread and no error.
pub proof fn lemma_eir_sequence_total(entries: Seq<EirEntryModel>)
    requires
        forall|i: int| 0 <= i < entries.len() ==> eir_entry_wf(#[trigger] entries[i]),
    ensures
        spec_eir_unpack_all(spec_eir_pack_all(entries)) == Ok::<Seq<EirEntryModel>, Error>(entries),
    decreases entries.len(),
{
    if entries.len() == 0 {
        assert(spec_eir_pack_all(entries).len() == 0);
        assert(entries =~= Seq::<EirEntryModel>::empty());
    } else {
        let e = entries[0];
        assert(eir_entry_wf(e));
        let head = spec_eir_pack(e);
        let tail = spec_eir_pack_all(entries.skip(1));
        let b = spec_eir_pack_all(entries);
        assert(b == head + tail);
        assert(head.len() == e.data.len() + 2);
        let length = b[0] as int;
        assert(b[0] == head[0]);
        assert(head[0] == (e.data.len() + 1) as u8);
        assert(length == e.data.len() + 1);
        assert(b[1] == e.data_type.wire());
        assert(DataType::spec_from_wire(b[1]) == e.data_type);
        assert(b.len() >= 2 && length >= 1 && length + 1 <= b.len());
        assert(b.subrange(2, length + 1) =~= e.data);
        assert(<EirEntry as Unpack>::spec_unpack(b) == Ok::<(EirEntryModel, int), Error>(
            (EirEntryModel { data_type: e.data_type, data: e.data }, length + 1),
        ));
        assert(b.skip(length + 1) =~= tail);
        assert forall|i: int|
            0 <= i < entries.skip(1).len() implies eir_entry_wf(
            #[trigger] entries.skip(1)[i],
        ) by {
            assert(entries.skip(1)[i] == entries[i + 1]);
        }
        lemma_eir_sequence_total(entries.skip(1));
        assert(spec_eir_unpack_all(b.skip(length + 1)) == Ok::<Seq<EirEntryModel>, Error>(
            entries.skip(1),
        ));
        assert(EirEntryModel { data_type: e.data_type, data: e.data } == e);
        assert(spec_eir_unpack_all(b) == Ok::<Seq<EirEntryModel>, Error>(
            seq![e] + entries.skip(1),
        ));
        assert(seq![e] + entries.skip(1) =~= entries);
    }
}

} // verus!
