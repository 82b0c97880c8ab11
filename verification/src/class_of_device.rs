//! The 24-bit packed class-of-device field.
//!
//! The three wire bytes form one little-endian 24-bit value; the format
//! code, the major and minor device classes and the service-class bitmask
//! are all views over that value and are recomputed on demand, never stored
//! separately.

use vstd::prelude::*;

use crate::error::{err_not_enough_data, not_enough_data, Error};
use crate::pack::UnpackFixed;

verus! {

/// Service-class bit of the limited-discoverable mode.
pub const SERVICE_LIMITED_DISCOVERABLE: u32 = 0x0000_2000;

/// First reserved service-class bit.
pub const SERVICE_RESERVED1: u32 = 0x0000_4000;

/// Second reserved service-class bit.
pub const SERVICE_RESERVED2: u32 = 0x0000_8000;

/// Service-class bit of positioning (location identification).
pub const SERVICE_POSITIONING: u32 = 0x0001_0000;

/// Service-class bit of networking.
pub const SERVICE_NETWORKING: u32 = 0x0002_0000;

/// Service-class bit of rendering (printing, speakers).
pub const SERVICE_RENDERING: u32 = 0x0004_0000;

/// Service-class bit of capturing (scanners, microphones).
pub const SERVICE_CAPTURING: u32 = 0x0008_0000;

/// Service-class bit of object transfer.
pub const SERVICE_OBJECT_TRANSFER: u32 = 0x0010_0000;

/// Service-class bit of audio.
pub const SERVICE_AUDIO: u32 = 0x0020_0000;

/// Service-class bit of telephony.
pub const SERVICE_TELEFONY: u32 = 0x0040_0000;

/// Service-class bit of information (web servers, WAP servers).
pub const SERVICE_INFORMATION: u32 = 0x0080_0000;

/// The bits of the 24-bit field that carry the service-class mask
/// (bits 13 to 23); every combination of them is valid.
pub const SERVICE_MASK: u32 = 0x00ff_e000;

/// The 11-flag major-service-class bitmask of a class-of-device value.
#[derive(Clone, Copy, Debug, PartialEq, Eq, Structural)]
pub struct MajorServiceClass {
    /// The raw flag bits; only bits of [`SERVICE_MASK`] can be set.
    pub bits: u32,
}

impl MajorServiceClass {
    /// The mask with no flag set.
    pub fn empty() -> (r: MajorServiceClass)
        ensures
            r.bits == 0,
    {
        MajorServiceClass { bits: 0 }
    }

    /// The flag bits as the raw integer.
    pub fn bits(&self) -> (r: u32)
        ensures
            r == self.bits,
    {
        self.bits
    }

    /// Whether every flag of `other` is also set in `self`.
    pub fn contains(&self, other: MajorServiceClass) -> (r: bool)
        ensures
            r == (self.bits & other.bits == other.bits),
    {
        self.bits & other.bits == other.bits
    }

    /// The mask holding the flags of both operands.
    pub fn union(self, other: MajorServiceClass) -> (r: MajorServiceClass)
        ensures
            r.bits == self.bits | other.bits,
    {
        MajorServiceClass { bits: self.bits | other.bits }
    }
}

/// The major device class: bits 8 to 12 of the class-of-device field.
#[derive(Clone, Copy, Debug, PartialEq, Eq, Structural)]
pub enum MajorDeviceClass {
    Miscellaneous,
    Computer,
    Phone,
    Network,
    AudioVideo,
    Peripheral,
    Imaging,
    Wearable,
    Toy,
    Health,
    Uncategorized,
    Reserved,
}

impl MajorDeviceClass {
    /// The class each 5-bit major code names; every code outside the known
    /// table is `Reserved`.
    pub open spec fn spec_from(value: u8) -> MajorDeviceClass {
        if value == 0b0_0000 {
            MajorDeviceClass::Miscellaneous
        } else if value == 0b0_0001 {
            MajorDeviceClass::Computer
        } else if value == 0b0_0010 {
            MajorDeviceClass::Phone
        } else if value == 0b0_0011 {
            MajorDeviceClass::Network
        } else if value == 0b0_0100 {
            MajorDeviceClass::AudioVideo
        } else if value == 0b0_0101 {
            MajorDeviceClass::Peripheral
        } else if value == 0b0_0110 {
            MajorDeviceClass::Imaging
        } else if value == 0b0_0111 {
            MajorDeviceClass::Wearable
        } else if value == 0b0_1000 {
            MajorDeviceClass::Toy
        } else if value == 0b0_1001 {
            MajorDeviceClass::Health
        } else if value == 0b1_1111 {
            MajorDeviceClass::Uncategorized
        } else {
            MajorDeviceClass::Reserved
        }
    }
}

impl From<u8> for MajorDeviceClass {
    fn from(value: u8) -> (r: MajorDeviceClass) {
        match value {
            0b0_0000 => MajorDeviceClass::Miscellaneous,
            0b0_0001 => MajorDeviceClass::Computer,
            0b0_0010 => MajorDeviceClass::Phone,
            0b0_0011 => MajorDeviceClass::Network,
            0b0_0100 => MajorDeviceClass::AudioVideo,
            0b0_0101 => MajorDeviceClass::Peripheral,
            0b0_0110 => MajorDeviceClass::Imaging,
            0b0_0111 => MajorDeviceClass::Wearable,
            0b0_1000 => MajorDeviceClass::Toy,
            0b0_1001 => MajorDeviceClass::Health,
            0b1_1111 => MajorDeviceClass::Uncategorized,
            _ => MajorDeviceClass::Reserved,
        }
    }
}

impl vstd::std_specs::convert::FromSpecImpl<u8> for MajorDeviceClass {
    open spec fn obeys_from_spec() -> bool {
        true
    }

    open spec fn from_spec(value: u8) -> MajorDeviceClass {
        MajorDeviceClass::spec_from(value)
    }
}

/// Minor device class under the `Computer` major class.
#[derive(Clone, Copy, Debug, PartialEq, Eq, Structural)]
pub enum DeviceClassComputer {
    Uncategorized,
    Workstation,
    Server,
    Laptop,
    Handheld,
    PalmSized,
    Wearable,
    Tablet,
    Reserved,
}

impl DeviceClassComputer {
    /// The computer class each 6-bit minor code names.
    pub open spec fn spec_from(value: u8) -> DeviceClassComputer {
        if value == 0b00_0000 {
            DeviceClassComputer::Uncategorized
        } else if value == 0b00_0001 {
            DeviceClassComputer::Workstation
        } else if value == 0b00_0010 {
            DeviceClassComputer::Server
        } else if value == 0b00_0011 {
            DeviceClassComputer::Laptop
        } else if value == 0b00_0100 {
            DeviceClassComputer::Handheld
        } else if value == 0b00_0101 {
            DeviceClassComputer::PalmSized
        } else if value == 0b00_0110 {
            DeviceClassComputer::Wearable
        } else if value == 0b00_0111 {
            DeviceClassComputer::Tablet
        } else {
            DeviceClassComputer::Reserved
        }
    }
}

impl From<u8> for DeviceClassComputer {
    fn from(value: u8) -> (r: DeviceClassComputer) {
        match value {
            0b00_0000 => DeviceClassComputer::Uncategorized,
            0b00_0001 => DeviceClassComputer::Workstation,
            0b00_0010 => DeviceClassComputer::Server,
            0b00_0011 => DeviceClassComputer::Laptop,
            0b00_0100 => DeviceClassComputer::Handheld,
            0b00_0101 => DeviceClassComputer::PalmSized,
            0b00_0110 => DeviceClassComputer::Wearable,
            0b00_0111 => DeviceClassComputer::Tablet,
            _ => DeviceClassComputer::Reserved,
        }
    }
}

impl vstd::std_specs::convert::FromSpecImpl<u8> for DeviceClassComputer {
    open spec fn obeys_from_spec() -> bool {
        true
    }

    open spec fn from_spec(value: u8) -> DeviceClassComputer {
        DeviceClassComputer::spec_from(value)
    }
}

/// Minor device class under the `Phone` major class.
#[derive(Clone, Copy, Debug, PartialEq, Eq, Structural)]
pub enum DeviceClassPhone {
    Uncategorized,
    Cellular,
    Cordless,
    Smartphone,
    ModemOrVoiceGateway,
    Isdn,
    Reserved,
}

impl DeviceClassPhone {
    /// The phone class each 6-bit minor code names.
    pub open spec fn spec_from(value: u8) -> DeviceClassPhone {
        if value == 0b00_0000 {
            DeviceClassPhone::Uncategorized
        } else if value == 0b00_0001 {
            DeviceClassPhone::Cellular
        } else if value == 0b00_0010 {
            DeviceClassPhone::Cordless
        } else if value == 0b00_0011 {
            DeviceClassPhone::Smartphone
        } else if value == 0b00_0100 {
            DeviceClassPhone::ModemOrVoiceGateway
        } else if value == 0b00_0101 {
            DeviceClassPhone::Isdn
        } else {
            DeviceClassPhone::Reserved
        }
    }
}

impl From<u8> for DeviceClassPhone {
    fn from(value: u8) -> (r: DeviceClassPhone) {
        match value {
            0b00_0000 => DeviceClassPhone::Uncategorized,
            0b00_0001 => DeviceClassPhone::Cellular,
            0b00_0010 => DeviceClassPhone::Cordless,
            0b00_0011 => DeviceClassPhone::Smartphone,
            0b00_0100 => DeviceClassPhone::ModemOrVoiceGateway,
            0b00_0101 => DeviceClassPhone::Isdn,
            _ => DeviceClassPhone::Reserved,
        }
    }
}

impl vstd::std_specs::convert::FromSpecImpl<u8> for DeviceClassPhone {
    open spec fn obeys_from_spec() -> bool {
        true
    }

    open spec fn from_spec(value: u8) -> DeviceClassPhone {
        DeviceClassPhone::spec_from(value)
    }
}

/// Minor device class under the `Network` major class: the minor code
/// carries a load-factor field rather than a device table.
#[derive(Clone, Copy, Debug, PartialEq, Eq, Structural)]
pub enum DeviceClassNetwork {
    /// An access point together with its approximate utilisation percentage.
    Uncategorized(u8),
    Reserved,
}

impl DeviceClassNetwork {
    /// The utilisation percentage named by the upper bits of the minor code.
    pub open spec fn spec_utilization(value: u8) -> u8 {
        let masked = value & 0b11_1000;
        if masked == 0b000 {
            100
        } else if masked == 0b001 {
            1
        } else if masked == 0b010 {
            17
        } else if masked == 0b011 {
            33
        } else if masked == 0b100 {
            50
        } else if masked == 0b101 {
            67
        } else if masked == 0b110 {
            99
        } else {
            0
        }
    }

    /// The network class each 6-bit minor code names.
    pub open spec fn spec_from(value: u8) -> DeviceClassNetwork {
        if value & 0b111 == 0b000 {
            DeviceClassNetwork::Uncategorized(DeviceClassNetwork::spec_utilization(value))
        } else {
            DeviceClassNetwork::Reserved
        }
    }
}

impl From<u8> for DeviceClassNetwork {
    fn from(value: u8) -> (r: DeviceClassNetwork) {
        let utilization = match value & 0b11_1000 {
            0b000 => 100,
            0b001 => 1,
            0b010 => 17,
            0b011 => 33,
            0b100 => 50,
            0b101 => 67,
            0b110 => 99,
            _ => 0,
        };
        match value & 0b111 {
            0b000 => DeviceClassNetwork::Uncategorized(utilization),
            _ => DeviceClassNetwork::Reserved,
        }
    }
}

impl vstd::std_specs::convert::FromSpecImpl<u8> for DeviceClassNetwork {
    open spec fn obeys_from_spec() -> bool {
        true
    }

    open spec fn from_spec(value: u8) -> DeviceClassNetwork {
        DeviceClassNetwork::spec_from(value)
    }
}

/// Minor device class under the `AudioVideo` major class.
#[derive(Clone, Copy, Debug, PartialEq, Eq, Structural)]
pub enum DeviceClassAudioVideo {
    Uncategorized,
    Headset,
    HandsFree,
    Microphone,
    Loudspeaker,
    Headphones,
    PortableAudio,
    CarAudio,
    SetTopBox,
    HiFiAudioDevice,
    VCR,
    VideoCamera,
    Camcorder,
    VideoMonitor,
    VideoDisplayAndLoudspeaker,
    VideoConferencing,
    GamingToy,
    Reserved,
}

impl DeviceClassAudioVideo {
    /// The audio/video class each 6-bit minor code names.
    pub open spec fn spec_from(value: u8) -> DeviceClassAudioVideo {
        if value == 0b00_0000 {
            DeviceClassAudioVideo::Uncategorized
        } else if value == 0b00_0001 {
            DeviceClassAudioVideo::Headset
        } else if value == 0b00_0010 {
            DeviceClassAudioVideo::HandsFree
        } else if value == 0b00_0100 {
            DeviceClassAudioVideo::Microphone
        } else if value == 0b00_0101 {
            DeviceClassAudioVideo::Loudspeaker
        } else if value == 0b00_0110 {
            DeviceClassAudioVideo::Headphones
        } else if value == 0b00_0111 {
            DeviceClassAudioVideo::PortableAudio
        } else if value == 0b00_1000 {
            DeviceClassAudioVideo::CarAudio
        } else if value == 0b00_1001 {
            DeviceClassAudioVideo::SetTopBox
        } else if value == 0b00_1010 {
            DeviceClassAudioVideo::HiFiAudioDevice
        } else if value == 0b00_1011 {
            DeviceClassAudioVideo::VCR
        } else if value == 0b00_1100 {
            DeviceClassAudioVideo::VideoCamera
        } else if value == 0b00_1101 {
            DeviceClassAudioVideo::Camcorder
        } else if value == 0b00_1110 {
            DeviceClassAudioVideo::VideoMonitor
        } else if value == 0b00_1111 {
            DeviceClassAudioVideo::VideoDisplayAndLoudspeaker
        } else if value == 0b01_0000 {
            DeviceClassAudioVideo::VideoConferencing
        } else if value == 0b01_0010 {
            DeviceClassAudioVideo::GamingToy
        } else {
            DeviceClassAudioVideo::Reserved
        }
    }
}

impl From<u8> for DeviceClassAudioVideo {
    fn from(value: u8) -> (r: DeviceClassAudioVideo) {
        match value {
            0b00_0000 => DeviceClassAudioVideo::Uncategorized,
            0b00_0001 => DeviceClassAudioVideo::Headset,
            0b00_0010 => DeviceClassAudioVideo::HandsFree,
            0b00_0100 => DeviceClassAudioVideo::Microphone,
            0b00_0101 => DeviceClassAudioVideo::Loudspeaker,
            0b00_0110 => DeviceClassAudioVideo::Headphones,
            0b00_0111 => DeviceClassAudioVideo::PortableAudio,
            0b00_1000 => DeviceClassAudioVideo::CarAudio,
            0b00_1001 => DeviceClassAudioVideo::SetTopBox,
            0b00_1010 => DeviceClassAudioVideo::HiFiAudioDevice,
            0b00_1011 => DeviceClassAudioVideo::VCR,
            0b00_1100 => DeviceClassAudioVideo::VideoCamera,
            0b00_1101 => DeviceClassAudioVideo::Camcorder,
            0b00_1110 => DeviceClassAudioVideo::VideoMonitor,
            0b00_1111 => DeviceClassAudioVideo::VideoDisplayAndLoudspeaker,
            0b01_0000 => DeviceClassAudioVideo::VideoConferencing,
            0b01_0010 => DeviceClassAudioVideo::GamingToy,
            _ => DeviceClassAudioVideo::Reserved,
        }
    }
}

impl vstd::std_specs::convert::FromSpecImpl<u8> for DeviceClassAudioVideo {
    open spec fn obeys_from_spec() -> bool {
        true
    }

    open spec fn from_spec(value: u8) -> DeviceClassAudioVideo {
        DeviceClassAudioVideo::spec_from(value)
    }
}

/// The keyboard/pointing-device half of a peripheral's minor code
/// (its top two bits).
#[derive(Clone, Copy, Debug, PartialEq, Eq, Structural)]
pub enum DeviceClassKeyboardPointingDevice {
    NotKeyboardNotPointingDevice,
    Keyboard,
    PointingDevice,
    ComboDevice,
}

impl DeviceClassKeyboardPointingDevice {
    /// The keyboard/pointing kind each 2-bit code names.
    pub open spec fn spec_from(value: u8) -> DeviceClassKeyboardPointingDevice {
        if value == 0b01 {
            DeviceClassKeyboardPointingDevice::Keyboard
        } else if value == 0b10 {
            DeviceClassKeyboardPointingDevice::PointingDevice
        } else if value == 0b11 {
            DeviceClassKeyboardPointingDevice::ComboDevice
        } else {
            DeviceClassKeyboardPointingDevice::NotKeyboardNotPointingDevice
        }
    }
}

impl From<u8> for DeviceClassKeyboardPointingDevice {
    fn from(value: u8) -> (r: DeviceClassKeyboardPointingDevice) {
        match value {
            0b01 => DeviceClassKeyboardPointingDevice::Keyboard,
            0b10 => DeviceClassKeyboardPointingDevice::PointingDevice,
            0b11 => DeviceClassKeyboardPointingDevice::ComboDevice,
            _ => DeviceClassKeyboardPointingDevice::NotKeyboardNotPointingDevice,
        }
    }
}

impl vstd::std_specs::convert::FromSpecImpl<u8> for DeviceClassKeyboardPointingDevice {
    open spec fn obeys_from_spec() -> bool {
        true
    }

    open spec fn from_spec(value: u8) -> DeviceClassKeyboardPointingDevice {
        DeviceClassKeyboardPointingDevice::spec_from(value)
    }
}

/// The device half of a peripheral's minor code (its bottom four bits).
#[derive(Clone, Copy, Debug, PartialEq, Eq, Structural)]
pub enum DeviceClassPeripheral {
    Uncategorized,
    Joystick,
    Gamepad,
    RemoteControl,
    SensingDevice,
    DigitizerTablet,
    CardReader,
    DigitalPen,
    HandheldScanner,
    HandheltGesture,
    Reserved,
}

impl DeviceClassPeripheral {
    /// The peripheral kind each 4-bit code names.
    pub open spec fn spec_from(value: u8) -> DeviceClassPeripheral {
        if value == 0b0000 {
            DeviceClassPeripheral::Uncategorized
        } else if value == 0b0001 {
            DeviceClassPeripheral::Joystick
        } else if value == 0b0010 {
            DeviceClassPeripheral::Gamepad
        } else if value == 0b0011 {
            DeviceClassPeripheral::RemoteControl
        } else if value == 0b0100 {
            DeviceClassPeripheral::SensingDevice
        } else if value == 0b0101 {
            DeviceClassPeripheral::DigitizerTablet
        } else if value == 0b0110 {
            DeviceClassPeripheral::CardReader
        } else if value == 0b0111 {
            DeviceClassPeripheral::DigitalPen
        } else if value == 0b1000 {
            DeviceClassPeripheral::HandheldScanner
        } else if value == 0b1001 {
            DeviceClassPeripheral::HandheltGesture
        } else {
            DeviceClassPeripheral::Reserved
        }
    }
}

impl From<u8> for DeviceClassPeripheral {
    fn from(value: u8) -> (r: DeviceClassPeripheral) {
        match value {
            0b0000 => DeviceClassPeripheral::Uncategorized,
            0b0001 => DeviceClassPeripheral::Joystick,
            0b0010 => DeviceClassPeripheral::Gamepad,
            0b0011 => DeviceClassPeripheral::RemoteControl,
            0b0100 => DeviceClassPeripheral::SensingDevice,
            0b0101 => DeviceClassPeripheral::DigitizerTablet,
            0b0110 => DeviceClassPeripheral::CardReader,
            0b0111 => DeviceClassPeripheral::DigitalPen,
            0b1000 => DeviceClassPeripheral::HandheldScanner,
            0b1001 => DeviceClassPeripheral::HandheltGesture,
            _ => DeviceClassPeripheral::Reserved,
        }
    }
}

impl vstd::std_specs::convert::FromSpecImpl<u8> for DeviceClassPeripheral {
    open spec fn obeys_from_spec() -> bool {
        true
    }

    open spec fn from_spec(value: u8) -> DeviceClassPeripheral {
        DeviceClassPeripheral::spec_from(value)
    }
}

/// Minor device class under the `Wearable` major class.
#[derive(Clone, Copy, Debug, PartialEq, Eq, Structural)]
pub enum DeviceClassWearable {
    Wristwatch,
    Pager,
    Jacket,
    Helmet,
    Glasses,
    Reserved,
}

impl DeviceClassWearable {
    /// The wearable kind each 6-bit minor code names.
    pub open spec fn spec_from(value: u8) -> DeviceClassWearable {
        if value == 0b0001 {
            DeviceClassWearable::Wristwatch
        } else if value == 0b0010 {
            DeviceClassWearable::Pager
        } else if value == 0b0011 {
            DeviceClassWearable::Jacket
        } else if value == 0b0100 {
            DeviceClassWearable::Helmet
        } else if value == 0b0101 {
            DeviceClassWearable::Glasses
        } else {
            DeviceClassWearable::Reserved
        }
    }
}

impl From<u8> for DeviceClassWearable {
    fn from(value: u8) -> (r: DeviceClassWearable) {
        match value {
            0b0001 => DeviceClassWearable::Wristwatch,
            0b0010 => DeviceClassWearable::Pager,
            0b0011 => DeviceClassWearable::Jacket,
            0b0100 => DeviceClassWearable::Helmet,
            0b0101 => DeviceClassWearable::Glasses,
            _ => DeviceClassWearable::Reserved,
        }
    }
}

impl vstd::std_specs::convert::FromSpecImpl<u8> for DeviceClassWearable {
    open spec fn obeys_from_spec() -> bool {
        true
    }

    open spec fn from_spec(value: u8) -> DeviceClassWearable {
        DeviceClassWearable::spec_from(value)
    }
}

/// Minor device class under the `Toy` major class.
#[derive(Clone, Copy, Debug, PartialEq, Eq, Structural)]
pub enum DeviceClassToy {
    Robot,
    Vehicle,
    Doll,
    Controller,
    Game,
    Reserved,
}

impl DeviceClassToy {
    /// The toy kind each 6-bit minor code names.
    pub open spec fn spec_from(value: u8) -> DeviceClassToy {
        if value == 0b0001 {
            DeviceClassToy::Robot
        } else if value == 0b0010 {
            DeviceClassToy::Vehicle
        } else if value == 0b0011 {
            DeviceClassToy::Doll
        } else if value == 0b0100 {
            DeviceClassToy::Controller
        } else if value == 0b0101 {
            DeviceClassToy::Game
        } else {
            DeviceClassToy::Reserved
        }
    }
}

impl From<u8> for DeviceClassToy {
    fn from(value: u8) -> (r: DeviceClassToy) {
        match value {
            0b0001 => DeviceClassToy::Robot,
            0b0010 => DeviceClassToy::Vehicle,
            0b0011 => DeviceClassToy::Doll,
            0b0100 => DeviceClassToy::Controller,
            0b0101 => DeviceClassToy::Game,
            _ => DeviceClassToy::Reserved,
        }
    }
}

impl vstd::std_specs::convert::FromSpecImpl<u8> for DeviceClassToy {
    open spec fn obeys_from_spec() -> bool {
        true
    }

    open spec fn from_spec(value: u8) -> DeviceClassToy {
        DeviceClassToy::spec_from(value)
    }
}

/// Minor device class under the `Health` major class.
#[derive(Clone, Copy, Debug, PartialEq, Eq, Structural)]
pub enum DeviceClassHealth {
    Undefined,
    BloodPressureMonitor,
    Thermometer,
    WeighingScale,
    GlucoseMeter,
    PulseOximeter,
    HeartRateMonitor,
    HealthDataDisplay,
    StepCounter,
    BodyCompositionAnalyzer,
    PeakFlowMonitor,
    MedicationMonitor,
    KneeProsthesis,
    AnkleProsthesis,
    GenericHealthManager,
    PersonalMobilityDevice,
    Reserved,
}

impl DeviceClassHealth {
    /// The health-device kind each 6-bit minor code names.
    pub open spec fn spec_from(value: u8) -> DeviceClassHealth {
        if value == 0b00_0000 {
            DeviceClassHealth::Undefined
        } else if value == 0b00_0001 {
            DeviceClassHealth::BloodPressureMonitor
        } else if value == 0b00_0010 {
            DeviceClassHealth::Thermometer
        } else if value == 0b00_0011 {
            DeviceClassHealth::WeighingScale
        } else if value == 0b00_0100 {
            DeviceClassHealth::GlucoseMeter
        } else if value == 0b00_0101 {
            DeviceClassHealth::PulseOximeter
        } else if value == 0b00_0110 {
            DeviceClassHealth::HeartRateMonitor
        } else if value == 0b00_0111 {
            DeviceClassHealth::HealthDataDisplay
        } else if value == 0b00_1000 {
            DeviceClassHealth::StepCounter
        } else if value == 0b00_1001 {
            DeviceClassHealth::BodyCompositionAnalyzer
        } else if value == 0b00_1010 {
            DeviceClassHealth::PeakFlowMonitor
        } else if value == 0b00_1011 {
            DeviceClassHealth::MedicationMonitor
        } else if value == 0b00_1110 {
            DeviceClassHealth::KneeProsthesis
        } else if value == 0b00_1111 {
            DeviceClassHealth::AnkleProsthesis
        } else if value == 0b01_0000 {
            DeviceClassHealth::GenericHealthManager
        } else if value == 0b01_0001 {
            DeviceClassHealth::PersonalMobilityDevice
        } else {
            DeviceClassHealth::Reserved
        }
    }
}

impl From<u8> for DeviceClassHealth {
    fn from(value: u8) -> (r: DeviceClassHealth) {
        match value {
            0b00_0000 => DeviceClassHealth::Undefined,
            0b00_0001 => DeviceClassHealth::BloodPressureMonitor,
            0b00_0010 => DeviceClassHealth::Thermometer,
            0b00_0011 => DeviceClassHealth::WeighingScale,
            0b00_0100 => DeviceClassHealth::GlucoseMeter,
            0b00_0101 => DeviceClassHealth::PulseOximeter,
            0b00_0110 => DeviceClassHealth::HeartRateMonitor,
            0b00_0111 => DeviceClassHealth::HealthDataDisplay,
            0b00_1000 => DeviceClassHealth::StepCounter,
            0b00_1001 => DeviceClassHealth::BodyCompositionAnalyzer,
            0b00_1010 => DeviceClassHealth::PeakFlowMonitor,
            0b00_1011 => DeviceClassHealth::MedicationMonitor,
            0b00_1110 => DeviceClassHealth::KneeProsthesis,
            0b00_1111 => DeviceClassHealth::AnkleProsthesis,
            0b01_0000 => DeviceClassHealth::GenericHealthManager,
            0b01_0001 => DeviceClassHealth::PersonalMobilityDevice,
            _ => DeviceClassHealth::Reserved,
        }
    }
}

impl vstd::std_specs::convert::FromSpecImpl<u8> for DeviceClassHealth {
    open spec fn obeys_from_spec() -> bool {
        true
    }

    open spec fn from_spec(value: u8) -> DeviceClassHealth {
        DeviceClassHealth::spec_from(value)
    }
}

/// The full device class: the major class together with its own minor
/// table's entry.
#[derive(Clone, Copy, Debug, PartialEq, Eq)]
pub enum DeviceClass {
    Miscellaneous(u8),
    Computer(DeviceClassComputer),
    Phone(DeviceClassPhone),
    Network(DeviceClassNetwork),
    AudioVideo(DeviceClassAudioVideo),
    Peripheral((DeviceClassKeyboardPointingDevice, DeviceClassPeripheral)),
    Imaging,
    Wearable(DeviceClassWearable),
    Toy(DeviceClassToy),
    Health(DeviceClassHealth),
    Uncategorized(u8),
    Reserved(u8),
}

/// The 24-bit packed class-of-device value, as three little-endian wire
/// bytes.
#[derive(Clone, Copy, Debug, PartialEq, Eq, Structural)]
pub struct ClassOfDevice(pub u32);

impl View for ClassOfDevice {
    type V = ClassOfDevice;

    open spec fn view(&self) -> ClassOfDevice {
        *self
    }
}

impl ClassOfDevice {
    /// Bits 0 to 1 of the raw value.
    pub open spec fn spec_format_code(&self) -> u8 {
        (self.0 & 0b11) as u8
    }

    /// Bits 8 to 12 of the raw value: the 5-bit major-class code.
    pub open spec fn spec_major_code(&self) -> u8 {
        ((self.0 >> 8) & 0b1_1111) as u8
    }

    /// Bits 2 to 7 of the raw value: the 6-bit minor-class code.
    pub open spec fn spec_minor_code(&self) -> u8 {
        ((self.0 >> 2) & 0b11_1111) as u8
    }

    /// The major device class the raw value carries.
    pub open spec fn spec_major_device_class(&self) -> MajorDeviceClass {
        MajorDeviceClass::spec_from(self.spec_major_code())
    }

    /// The full device class the raw value carries: the minor code is
    /// interpreted by the table of the major class it stands under.
    pub open spec fn spec_device_class(&self) -> DeviceClass {
        let minor = self.spec_minor_code();
        match self.spec_major_device_class() {
            MajorDeviceClass::Miscellaneous => DeviceClass::Miscellaneous(minor),
            MajorDeviceClass::Computer => DeviceClass::Computer(DeviceClassComputer::spec_from(minor)),
            MajorDeviceClass::Phone => DeviceClass::Phone(DeviceClassPhone::spec_from(minor)),
            MajorDeviceClass::Network => DeviceClass::Network(DeviceClassNetwork::spec_from(minor)),
            MajorDeviceClass::AudioVideo => DeviceClass::AudioVideo(
                DeviceClassAudioVideo::spec_from(minor),
            ),
            MajorDeviceClass::Peripheral => DeviceClass::Peripheral(
                (
                    DeviceClassKeyboardPointingDevice::spec_from(minor >> 4),
                    DeviceClassPeripheral::spec_from(minor & 0b1111),
                ),
            ),
            MajorDeviceClass::Imaging => DeviceClass::Imaging,
            MajorDeviceClass::Wearable => DeviceClass::Wearable(DeviceClassWearable::spec_from(minor)),
            MajorDeviceClass::Toy => DeviceClass::Toy(DeviceClassToy::spec_from(minor)),
            MajorDeviceClass::Health => DeviceClass::Health(DeviceClassHealth::spec_from(minor)),
            MajorDeviceClass::Uncategorized => DeviceClass::Uncategorized(minor),
            MajorDeviceClass::Reserved => DeviceClass::Reserved(minor),
        }
    }

    /// The service-class flags the raw value carries: its bits 13 to 23.
    pub open spec fn spec_major_service_class(&self) -> MajorServiceClass {
        MajorServiceClass { bits: self.0 & SERVICE_MASK }
    }

    /// The format code of the packed field (bits 0 to 1).
    pub fn format_code(&self) -> (r: u8)
        ensures
            r == self.spec_format_code(),
    {
        proof {
            let raw = self.0;
            assert(raw & 0b11 < 256) by (bit_vector);
        }
        (self.0 & 0b11) as u8
    }

    /// The major device class (bits 8 to 12, through the closed table with
    /// a reserved catch-all).
    pub fn major_device_class(&self) -> (r: MajorDeviceClass)
        ensures
            r == self.spec_major_device_class(),
    {
        proof {
            let raw = self.0;
            assert((raw >> 8) & 0b1_1111 < 256) by (bit_vector);
        }
        let major_device_class = ((self.0 >> 8) & 0b1_1111) as u8;
        MajorDeviceClass::from(major_device_class)
    }

    /// The full device class: the minor code (bits 2 to 7) interpreted by
    /// the table of the already-resolved major class.
    pub fn device_class(&self) -> (r: DeviceClass)
        ensures
            r == self.spec_device_class(),
    {
        let major = self.major_device_class();
        proof {
            let raw = self.0;
            assert((raw >> 2) & 0b11_1111 < 256) by (bit_vector);
        }
        let minor = ((self.0 >> 2) & 0b11_1111) as u8;
        match major {
            MajorDeviceClass::Miscellaneous => DeviceClass::Miscellaneous(minor),
            MajorDeviceClass::Computer => DeviceClass::Computer(DeviceClassComputer::from(minor)),
            MajorDeviceClass::Phone => DeviceClass::Phone(DeviceClassPhone::from(minor)),
            MajorDeviceClass::Network => DeviceClass::Network(DeviceClassNetwork::from(minor)),
            MajorDeviceClass::AudioVideo => DeviceClass::AudioVideo(
                DeviceClassAudioVideo::from(minor),
            ),
            MajorDeviceClass::Peripheral => DeviceClass::Peripheral(
                (
                    DeviceClassKeyboardPointingDevice::from(minor >> 4),
                    DeviceClassPeripheral::from(minor & 0b1111),
                ),
            ),
            MajorDeviceClass::Imaging => DeviceClass::Imaging,
            MajorDeviceClass::Wearable => DeviceClass::Wearable(DeviceClassWearable::from(minor)),
            MajorDeviceClass::Toy => DeviceClass::Toy(DeviceClassToy::from(minor)),
            MajorDeviceClass::Health => DeviceClass::Health(DeviceClassHealth::from(minor)),
            MajorDeviceClass::Uncategorized => DeviceClass::Uncategorized(minor),
            MajorDeviceClass::Reserved => DeviceClass::Reserved(minor),
        }
    }

    /// The major-service-class bitmask (bits 13 to 23); any combination of
    /// its flags is valid.
    pub fn major_service_class(&self) -> (r: MajorServiceClass)
        ensures
            r == self.spec_major_service_class(),
    {
        MajorServiceClass { bits: self.0 & SERVICE_MASK }
    }
}

impl UnpackFixed for ClassOfDevice {
    open spec fn spec_size() -> int {
        3
    }

    open spec fn spec_unpack(b: Seq<u8>) -> Result<ClassOfDevice, Error> {
        if b.len() != 3 {
            Err(not_enough_data())
        } else {
            Ok(ClassOfDevice((b[0] + b[1] * 0x100 + b[2] * 0x1_0000) as u32))
        }
    }

    proof fn lemma_unpack_exact_size(b: Seq<u8>) {
    }

    fn unpack(data: &[u8]) -> (r: Result<ClassOfDevice, Error>) {
        if data.len() != 3 {
            return Err(err_not_enough_data());
        }
        let class_of_device = data[0] as u32 + (data[1] as u32) * 0x100 + (data[2] as u32)
            * 0x1_0000;
        Ok(ClassOfDevice(class_of_device))
    }
}

} // verus!
