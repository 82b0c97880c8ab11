//! The event envelope: given an event identifier and its payload, route to
//! the matching composite decoder and tag the result.
//!
//! An unrecognised identifier is preserved together with its raw payload in
//! [`Event::Other`]; that path consumes the whole payload and never fails.
//! A decode failure from a delegate propagates unchanged.

pub mod command;
pub mod device_found;
pub mod discovering;

use vstd::prelude::*;

use crate::class_of_device::ClassOfDevice;
use crate::endian::{le32, read_u32_le};
use crate::error::{err_invalid_value, err_not_enough_data, invalid_value, not_enough_data, Error};
use crate::pack::{Unpack, UnpackFixed};

pub use command::{CommandComplete, CommandCompleteModel, CommandStatus};
pub use device_found::{DeviceFound, DeviceFoundModel};
pub use discovering::{Discovering, DiscoveringType};

verus! {

/// Controller-settings bit: powered on.
pub const SETTINGS_POWERED: u32 = 0x0000_0001;

/// Controller-settings bit: connectable.
pub const SETTINGS_CONNECTABLE: u32 = 0x0000_0002;

/// Controller-settings bit: fast connectable.
pub const SETTINGS_FAST_CONNECTABLE: u32 = 0x0000_0004;

/// Controller-settings bit: discoverable.
pub const SETTINGS_DISCOVERABLE: u32 = 0x0000_0008;

/// Controller-settings bit: bondable.
pub const SETTINGS_BONDABLE: u32 = 0x0000_0010;

/// Controller-settings bit: link-level security.
pub const SETTINGS_LINK_SECURITY: u32 = 0x0000_0020;

/// Controller-settings bit: secure simple pairing.
pub const SETTINGS_SECURE_SIMPLE_PAIRING: u32 = 0x0000_0040;

/// Controller-settings bit: basic rate / enhanced data rate.
pub const SETTINGS_BASIC_RATE_ENHANCED_DATA_RATE: u32 = 0x0000_0080;

/// Controller-settings bit: high speed.
pub const SETTINGS_HIGH_SPEED: u32 = 0x0000_0100;

/// Controller-settings bit: low energy.
pub const SETTINGS_LOW_ENERGY: u32 = 0x0000_0200;

/// Controller-settings bit: advertising.
pub const SETTINGS_ADVERTISING: u32 = 0x0000_0400;

/// Controller-settings bit: secure connections.
pub const SETTINGS_SECURE_CONN: u32 = 0x0000_0800;

/// Controller-settings bit: debug keys.
pub const SETTINGS_DEBUG_KEYS: u32 = 0x0000_1000;

/// Controller-settings bit: privacy.
pub const SETTINGS_PRIVACY: u32 = 0x0000_2000;

/// Controller-settings bit: controller configuration.
pub const SETTINGS_CONFIGURATION: u32 = 0x0000_4000;

/// Controller-settings bit: static address.
pub const SETTINGS_STATIC_ADDRESS: u32 = 0x0000_8000;

/// Controller-settings bit: PHY configuration.
pub const SETTINGS_PHY_CONFIGURATION: u32 = 0x0001_0000;

/// The wire bits a settings mask may set; any other bit is a protocol
/// violation.
pub const SETTINGS_MASK: u32 = 0x0001_ffff;

/// The closed bitmask of controller capability flags.
#[derive(Clone, Copy, Debug, PartialEq, Eq, Structural)]
pub struct Settings {
    /// The raw flag bits; only bits of [`SETTINGS_MASK`] can be set.
    pub bits: u32,
}

impl Settings {
    /// The mask each wire value names; a value with an unknown bit set is
    /// rejected, since the protocol defines every valid bit.
    pub open spec fn spec_from_bits(value: u32) -> Option<Settings> {
        if value & !SETTINGS_MASK == 0 {
            Some(Settings { bits: value })
        } else {
            None
        }
    }

    /// Decode a wire value into the mask; `None` on any unknown bit.
    pub fn from_bits(value: u32) -> (r: Option<Settings>)
        ensures
            r == Settings::spec_from_bits(value),
    {
        if value & !SETTINGS_MASK == 0 {
            Some(Settings { bits: value })
        } else {
            None
        }
    }

    /// The flag bits as the raw integer.
    pub fn bits(&self) -> (r: u32)
        ensures
            r == self.bits,
    {
        self.bits
    }

    /// The mask holding the flags of both operands.
    pub fn union(self, other: Settings) -> (r: Settings)
        ensures
            r.bits == self.bits | other.bits,
    {
        Settings { bits: self.bits | other.bits }
    }

    /// Whether every flag of `other` is also set in `self`.
    pub fn contains(&self, other: Settings) -> (r: bool)
        ensures
            r == (self.bits & other.bits == other.bits),
    {
        self.bits & other.bits == other.bits
    }
}

/// The event identifier of the envelope: an open enumeration over a
/// 16-bit wire value.
#[derive(Clone, Copy, Debug, PartialEq, Eq, Structural)]
pub enum EventId {
    CommandComplete,
    CommandStatus,
    ControllerError,
    IndexAdded,
    IndexRemoved,
    NewSettings,
    ClassOfDeviceChanged,
    LocalNameChanged,
    NewLinkKey,
    NewLongTermKey,
    DeviceConnected,
    DeviceDisconnected,
    ConnectFailed,
    PinCodeRequest,
    UserConfirmRequest,
    UserPasskeyRequest,
    AuthenticatonFailed,
    DeviceFound,
    Discovering,
    DeviceBlocked,
    DeviceUnblocked,
    DeviceUnpaired,
    PasskeyNotify,
    NewIdentityResolvingKey,
    NewConnectionSignatureResolvingKey,
    DeviceAdded,
    DeviceRemoved,
    NewConnectionParameters,
    UnconfirmedIndexAdded,
    UnconfirmedIndexRemoved,
    NewConfigurationOptions,
    ExtendedIndexAdded,
    ExtendedIndexRemoved,
    LocalOutOfBandDataUpdated,
    AdvertisingAdded,
    AdvertisingRemoved,
    ExtendedInformationChanged,
    PhyConfigurationChanged,
    /// A code outside the known set, kept as it arrived.
    Other(u16),
}

impl EventId {
    /// The wire value of each variant; `Other` carries its own code.
    pub open spec fn wire(self) -> u16 {
        match self {
            EventId::CommandComplete => 0x0001,
            EventId::CommandStatus => 0x0002,
            EventId::ControllerError => 0x0003,
            EventId::IndexAdded => 0x0004,
            EventId::IndexRemoved => 0x0005,
            EventId::NewSettings => 0x0006,
            EventId::ClassOfDeviceChanged => 0x0007,
            EventId::LocalNameChanged => 0x0008,
            EventId::NewLinkKey => 0x0009,
            EventId::NewLongTermKey => 0x000a,
            EventId::DeviceConnected => 0x000b,
            EventId::DeviceDisconnected => 0x000c,
            EventId::ConnectFailed => 0x000d,
            EventId::PinCodeRequest => 0x000e,
            EventId::UserConfirmRequest => 0x000f,
            EventId::UserPasskeyRequest => 0x0010,
            EventId::AuthenticatonFailed => 0x0011,
            EventId::DeviceFound => 0x0012,
            EventId::Discovering => 0x0013,
            EventId::DeviceBlocked => 0x0014,
            EventId::DeviceUnblocked => 0x0015,
            EventId::DeviceUnpaired => 0x0016,
            EventId::PasskeyNotify => 0x0017,
            EventId::NewIdentityResolvingKey => 0x0018,
            EventId::NewConnectionSignatureResolvingKey => 0x0019,
            EventId::DeviceAdded => 0x001a,
            EventId::DeviceRemoved => 0x001b,
            EventId::NewConnectionParameters => 0x001c,
            EventId::UnconfirmedIndexAdded => 0x001d,
            EventId::UnconfirmedIndexRemoved => 0x001e,
            EventId::NewConfigurationOptions => 0x001f,
            EventId::ExtendedIndexAdded => 0x0020,
            EventId::ExtendedIndexRemoved => 0x0021,
            EventId::LocalOutOfBandDataUpdated => 0x0022,
            EventId::AdvertisingAdded => 0x0023,
            EventId::AdvertisingRemoved => 0x0024,
            EventId::ExtendedInformationChanged => 0x0025,
            EventId::PhyConfigurationChanged => 0x0026,
            EventId::Other(v) => v,
        }
    }

    /// The variant each wire value names; total over all values.
    pub open spec fn spec_from_wire(value: u16) -> EventId {
        if value == 0x0001 {
            EventId::CommandComplete
        } else if value == 0x0002 {
            EventId::CommandStatus
        } else if value == 0x0003 {
            EventId::ControllerError
        } else if value == 0x0004 {
            EventId::IndexAdded
        } else if value == 0x0005 {
            EventId::IndexRemoved
        } else if value == 0x0006 {
            EventId::NewSettings
        } else if value == 0x0007 {
            EventId::ClassOfDeviceChanged
        } else if value == 0x0008 {
            EventId::LocalNameChanged
        } else if value == 0x0009 {
            EventId::NewLinkKey
        } else if value == 0x000a {
            EventId::NewLongTermKey
        } else if value == 0x000b {
            EventId::DeviceConnected
        } else if value == 0x000c {
            EventId::DeviceDisconnected
        } else if value == 0x000d {
            EventId::ConnectFailed
        } else if value == 0x000e {
            EventId::PinCodeRequest
        } else if value == 0x000f {
            EventId::UserConfirmRequest
        } else if value == 0x0010 {
            EventId::UserPasskeyRequest
        } else if value == 0x0011 {
            EventId::AuthenticatonFailed
        } else if value == 0x0012 {
            EventId::DeviceFound
        } else if value == 0x0013 {
            EventId::Discovering
        } else if value == 0x0014 {
            EventId::DeviceBlocked
        } else if value == 0x0015 {
            EventId::DeviceUnblocked
        } else if value == 0x0016 {
            EventId::DeviceUnpaired
        } else if value == 0x0017 {
            EventId::PasskeyNotify
        } else if value == 0x0018 {
            EventId::NewIdentityResolvingKey
        } else if value == 0x0019 {
            EventId::NewConnectionSignatureResolvingKey
        } else if value == 0x001a {
            EventId::DeviceAdded
        } else if value == 0x001b {
            EventId::DeviceRemoved
        } else if value == 0x001c {
            EventId::NewConnectionParameters
        } else if value == 0x001d {
            EventId::UnconfirmedIndexAdded
        } else if value == 0x001e {
            EventId::UnconfirmedIndexRemoved
        } else if value == 0x001f {
            EventId::NewConfigurationOptions
        } else if value == 0x0020 {
            EventId::ExtendedIndexAdded
        } else if value == 0x0021 {
            EventId::ExtendedIndexRemoved
        } else if value == 0x0022 {
            EventId::LocalOutOfBandDataUpdated
        } else if value == 0x0023 {
            EventId::AdvertisingAdded
        } else if value == 0x0024 {
            EventId::AdvertisingRemoved
        } else if value == 0x0025 {
            EventId::ExtendedInformationChanged
        } else if value == 0x0026 {
            EventId::PhyConfigurationChanged
        } else {
            EventId::Other(value)
        }
    }

    /// Decode a wire value.  Never fails: an unknown code becomes `Other`.
    pub fn from_wire(value: u16) -> (r: EventId)
        ensures
            r == EventId::spec_from_wire(value),
    {
        match value {
            0x0001 => EventId::CommandComplete,
            0x0002 => EventId::CommandStatus,
            0x0003 => EventId::ControllerError,
            0x0004 => EventId::IndexAdded,
            0x0005 => EventId::IndexRemoved,
            0x0006 => EventId::NewSettings,
            0x0007 => EventId::ClassOfDeviceChanged,
            0x0008 => EventId::LocalNameChanged,
            0x0009 => EventId::NewLinkKey,
            0x000a => EventId::NewLongTermKey,
            0x000b => EventId::DeviceConnected,
            0x000c => EventId::DeviceDisconnected,
            0x000d => EventId::ConnectFailed,
            0x000e => EventId::PinCodeRequest,
            0x000f => EventId::UserConfirmRequest,
            0x0010 => EventId::UserPasskeyRequest,
            0x0011 => EventId::AuthenticatonFailed,
            0x0012 => EventId::DeviceFound,
            0x0013 => EventId::Discovering,
            0x0014 => EventId::DeviceBlocked,
            0x0015 => EventId::DeviceUnblocked,
            0x0016 => EventId::DeviceUnpaired,
            0x0017 => EventId::PasskeyNotify,
            0x0018 => EventId::NewIdentityResolvingKey,
            0x0019 => EventId::NewConnectionSignatureResolvingKey,
            0x001a => EventId::DeviceAdded,
            0x001b => EventId::DeviceRemoved,
            0x001c => EventId::NewConnectionParameters,
            0x001d => EventId::UnconfirmedIndexAdded,
            0x001e => EventId::UnconfirmedIndexRemoved,
            0x001f => EventId::NewConfigurationOptions,
            0x0020 => EventId::ExtendedIndexAdded,
            0x0021 => EventId::ExtendedIndexRemoved,
            0x0022 => EventId::LocalOutOfBandDataUpdated,
            0x0023 => EventId::AdvertisingAdded,
            0x0024 => EventId::AdvertisingRemoved,
            0x0025 => EventId::ExtendedInformationChanged,
            0x0026 => EventId::PhyConfigurationChanged,
            _ => EventId::Other(value),
        }
    }

    /// Encode to the wire value; recovers the original code exactly, for
    /// the fallback variant too.
    pub fn to_wire(self) -> (r: u16)
        ensures
            r == self.wire(),
    {
        match self {
            EventId::CommandComplete => 0x0001,
            EventId::CommandStatus => 0x0002,
            EventId::ControllerError => 0x0003,
            EventId::IndexAdded => 0x0004,
            EventId::IndexRemoved => 0x0005,
            EventId::NewSettings => 0x0006,
            EventId::ClassOfDeviceChanged => 0x0007,
            EventId::LocalNameChanged => 0x0008,
            EventId::NewLinkKey => 0x0009,
            EventId::NewLongTermKey => 0x000a,
            EventId::DeviceConnected => 0x000b,
            EventId::DeviceDisconnected => 0x000c,
            EventId::ConnectFailed => 0x000d,
            EventId::PinCodeRequest => 0x000e,
            EventId::UserConfirmRequest => 0x000f,
            EventId::UserPasskeyRequest => 0x0010,
            EventId::AuthenticatonFailed => 0x0011,
            EventId::DeviceFound => 0x0012,
            EventId::Discovering => 0x0013,
            EventId::DeviceBlocked => 0x0014,
            EventId::DeviceUnblocked => 0x0015,
            EventId::DeviceUnpaired => 0x0016,
            EventId::PasskeyNotify => 0x0017,
            EventId::NewIdentityResolvingKey => 0x0018,
            EventId::NewConnectionSignatureResolvingKey => 0x0019,
            EventId::DeviceAdded => 0x001a,
            EventId::DeviceRemoved => 0x001b,
            EventId::NewConnectionParameters => 0x001c,
            EventId::UnconfirmedIndexAdded => 0x001d,
            EventId::UnconfirmedIndexRemoved => 0x001e,
            EventId::NewConfigurationOptions => 0x001f,
            EventId::ExtendedIndexAdded => 0x0020,
            EventId::ExtendedIndexRemoved => 0x0021,
            EventId::LocalOutOfBandDataUpdated => 0x0022,
            EventId::AdvertisingAdded => 0x0023,
            EventId::AdvertisingRemoved => 0x0024,
            EventId::ExtendedInformationChanged => 0x0025,
            EventId::PhyConfigurationChanged => 0x0026,
            EventId::Other(v) => v,
        }
    }
}

/// The open-enumeration round trip: decoding any wire value and encoding
/// the result gives the value back.
pub proof fn lemma_event_id_roundtrip(value: u16)
    ensures
        EventId::spec_from_wire(value).wire() == value,
{
}

/// A ghost-level decoded event.
pub enum EventModel {
    CommandComplete(CommandCompleteModel),
    CommandStatus(CommandStatus),
    ControllerError(u8),
    IndexAdded,
    IndexRemoved,
    ClassOfDeviceChanged(ClassOfDevice),
    NewSettings(Settings),
    DeviceFound(DeviceFoundModel),
    Discovering(Discovering),
    Other((EventId, Seq<u8>)),
}

/// The decoded envelope: exactly one variant per `(event id, payload)`
/// pair.  Identifiers without a composite decoder are preserved in
/// `Other`, never dropped.
#[derive(Clone, Copy, Debug, PartialEq, Eq)]
pub enum Event<'a> {
    CommandComplete(CommandComplete<'a>),
    CommandStatus(CommandStatus),
    ControllerError(u8),
    IndexAdded,
    IndexRemoved,
    ClassOfDeviceChanged(ClassOfDevice),
    NewSettings(Settings),
    DeviceFound(DeviceFound<'a>),
    Discovering(Discovering),
    Other((EventId, &'a [u8])),
}

impl<'a> View for Event<'a> {
    type V = EventModel;

    open spec fn view(&self) -> EventModel {
        match self {
            Event::CommandComplete(e) => EventModel::CommandComplete(e@),
            Event::CommandStatus(e) => EventModel::CommandStatus(*e),
            Event::ControllerError(e) => EventModel::ControllerError(*e),
            Event::IndexAdded => EventModel::IndexAdded,
            Event::IndexRemoved => EventModel::IndexRemoved,
            Event::ClassOfDeviceChanged(e) => EventModel::ClassOfDeviceChanged(*e),
            Event::NewSettings(e) => EventModel::NewSettings(*e),
            Event::DeviceFound(e) => EventModel::DeviceFound(e@),
            Event::Discovering(e) => EventModel::Discovering(*e),
            Event::Other((id, d)) => EventModel::Other((*id, d@)),
        }
    }
}

impl<'a> Event<'a> {
    /// The abstract dispatcher: what any `(event id, payload)` pair decodes
    /// to together with the count of bytes consumed, or with which error
    /// the delegate rejected it.
    pub open spec fn spec_unpack(event_id: EventId, b: Seq<u8>) -> Result<(EventModel, int), Error> {
        match event_id {
            EventId::CommandComplete => match <CommandComplete as Unpack>::spec_unpack(b) {
                Ok(p) => Ok((EventModel::CommandComplete(p.0), p.1)),
                Err(e) => Err(e),
            },
            EventId::CommandStatus => match <CommandStatus as Unpack>::spec_unpack(b) {
                Ok(p) => Ok((EventModel::CommandStatus(p.0), p.1)),
                Err(e) => Err(e),
            },
            EventId::ControllerError => if b.len() < 1 {
                Err(not_enough_data())
            } else {
                Ok((EventModel::ControllerError(b[0]), 1))
            },
            EventId::IndexAdded => Ok((EventModel::IndexAdded, 0)),
            EventId::IndexRemoved => Ok((EventModel::IndexRemoved, 0)),
            EventId::ClassOfDeviceChanged => if b.len() < 3 {
                Err(not_enough_data())
            } else {
                match <ClassOfDevice as UnpackFixed>::spec_unpack(b.subrange(0, 3)) {
                    Ok(c) => Ok((EventModel::ClassOfDeviceChanged(c), 3)),
                    Err(e) => Err(e),
                }
            },
            EventId::NewSettings => if b.len() < 4 {
                Err(not_enough_data())
            } else {
                match Settings::spec_from_bits(le32(b.subrange(0, 4)) as u32) {
                    Some(s) => Ok((EventModel::NewSettings(s), 4)),
                    None => Err(invalid_value()),
                }
            },
            EventId::DeviceFound => match <DeviceFound as Unpack>::spec_unpack(b) {
                Ok(p) => Ok((EventModel::DeviceFound(p.0), p.1)),
                Err(e) => Err(e),
            },
            EventId::Discovering => if b.len() < 2 {
                Err(not_enough_data())
            } else {
                match <Discovering as UnpackFixed>::spec_unpack(b.subrange(0, 2)) {
                    Ok(d) => Ok((EventModel::Discovering(d), 2)),
                    Err(e) => Err(e),
                }
            },
            _ => Ok((EventModel::Other((event_id, b)), b.len() as int)),
        }
    }

    /// Route the payload to the decoder of its event identifier, returning
    /// the tagged event and the number of payload bytes consumed.  The
    /// result agrees with the abstract dispatcher, on success and on
    /// failure.
    pub fn unpack(event_id: EventId, data: &'a [u8]) -> (r: Result<(Event<'a>, usize), Error>)
        ensures
            match (r, Event::spec_unpack(event_id, data@)) {
                (Ok((ev, used)), Ok(m)) => ev@ == m.0 && used == m.1,
                (Err(e), Err(m)) => e == m,
                _ => false,
            },
    {
        match event_id {
            EventId::CommandComplete => {
                let (event, used) = match CommandComplete::unpack(data) {
                    Ok(p) => p,
                    Err(e) => return Err(e),
                };
                Ok((Event::CommandComplete(event), used))
            },
            EventId::CommandStatus => {
                let (event, used) = match CommandStatus::unpack(data) {
                    Ok(p) => p,
                    Err(e) => return Err(e),
                };
                Ok((Event::CommandStatus(event), used))
            },
            EventId::ControllerError => {
                if data.len() < 1 {
                    return Err(err_not_enough_data());
                }
                Ok((Event::ControllerError(data[0]), 1))
            },
            EventId::IndexAdded => Ok((Event::IndexAdded, 0)),
            EventId::IndexRemoved => Ok((Event::IndexRemoved, 0)),
            EventId::ClassOfDeviceChanged => {
                if data.len() < 3 {
                    return Err(err_not_enough_data());
                }
                let cod = match ClassOfDevice::unpack(vstd::slice::slice_subrange(data, 0, 3)) {
                    Ok(c) => c,
                    Err(e) => return Err(e),
                };
                Ok((Event::ClassOfDeviceChanged(cod), 3))
            },
            EventId::NewSettings => {
                if data.len() < 4 {
                    return Err(err_not_enough_data());
                }
                let settings = match Settings::from_bits(read_u32_le(data, 0)) {
                    Some(s) => s,
                    None => return Err(err_invalid_value()),
                };
                Ok((Event::NewSettings(settings), 4))
            },
            EventId::DeviceFound => {
                let (event, used) = match DeviceFound::unpack(data) {
                    Ok(p) => p,
                    Err(e) => return Err(e),
                };
                Ok((Event::DeviceFound(event), used))
            },
            EventId::Discovering => {
                if data.len() < 2 {
                    return Err(err_not_enough_data());
                }
                let event = match Discovering::unpack(vstd::slice::slice_subrange(data, 0, 2)) {
                    Ok(d) => d,
                    Err(e) => return Err(e),
                };
                Ok((Event::Discovering(event), 2))
            },
            _ => Ok((Event::Other((event_id, data)), data.len())),
        }
    }
}

/// Truncation at the envelope: a payload shorter than its decoder's fixed
/// minimum is rejected with `NotEnoughData`, at every dispatch target.
/// Identifiers without a composite decoder have no minimum: that path
/// never fails.
pub proof fn lemma_event_truncation(event_id: EventId, b: Seq<u8>)
    ensures
        event_id == EventId::CommandComplete && b.len() < 3 ==> Event::spec_unpack(event_id, b)
            == Err::<(EventModel, int), Error>(not_enough_data()),
        event_id == EventId::CommandStatus && b.len() < 3 ==> Event::spec_unpack(event_id, b)
            == Err::<(EventModel, int), Error>(not_enough_data()),
        event_id == EventId::ControllerError && b.len() < 1 ==> Event::spec_unpack(event_id, b)
            == Err::<(EventModel, int), Error>(not_enough_data()),
        event_id == EventId::ClassOfDeviceChanged && b.len() < 3 ==> Event::spec_unpack(
            event_id,
            b,
        ) == Err::<(EventModel, int), Error>(not_enough_data()),
        event_id == EventId::NewSettings && b.len() < 4 ==> Event::spec_unpack(event_id, b)
            == Err::<(EventModel, int), Error>(not_enough_data()),
        event_id == EventId::DeviceFound && b.len() < 14 ==> Event::spec_unpack(event_id, b)
            == Err::<(EventModel, int), Error>(not_enough_data()),
        event_id == EventId::Discovering && b.len() < 2 ==> Event::spec_unpack(event_id, b)
            == Err::<(EventModel, int), Error>(not_enough_data()),
{
    <CommandComplete as Unpack>::lemma_unpack_min_size(b);
    <CommandStatus as Unpack>::lemma_unpack_min_size(b);
    <DeviceFound as Unpack>::lemma_unpack_min_size(b);
}

} // verus!
