//! The 16-bit appearance value of a low-energy device.
//!
//! The top 10 bits name a category, the bottom 6 bits a subcategory.  The
//! lookup is a two-level table: an unrecognised subcategory falls back to
//! the category's generic variant, an unrecognised category to `Unknown`.
//! Decoding therefore never fails: every 16-bit value maps to some
//! appearance.

use vstd::prelude::*;

verus! {

/// Watch subcategories.
#[derive(Clone, Copy, Debug, PartialEq, Eq, Structural)]
pub enum Watch {
    Generic,
    Sport,
}

/// Thermometer subcategories.
#[derive(Clone, Copy, Debug, PartialEq, Eq, Structural)]
pub enum Thermometer {
    Generic,
    Ear,
}

/// Heart-rate-sensor subcategories.
#[derive(Clone, Copy, Debug, PartialEq, Eq, Structural)]
pub enum HeartRateSensor {
    Generic,
    Belt,
}

/// Blood-pressure subcategories.
#[derive(Clone, Copy, Debug, PartialEq, Eq, Structural)]
pub enum BloodPressure {
    Generic,
    Arm,
    Wrist,
}

/// Human-interface-device subcategories.
#[derive(Clone, Copy, Debug, PartialEq, Eq, Structural)]
pub enum HumanInterfaceDevice {
    Generic,
    Keyboard,
    Mouse,
    Joystick,
    Gamepad,
    DigitizerTablet,
    CardReader,
    DigitalPen,
    BarcodeScanner,
}

/// Running/walking-sensor subcategories.
#[derive(Clone, Copy, Debug, PartialEq, Eq, Structural)]
pub enum RunningWalkingSensor {
    Generic,
    InShoe,
    OnShoe,
    OnHip,
}

/// Cycling subcategories.
#[derive(Clone, Copy, Debug, PartialEq, Eq, Structural)]
pub enum Cycling {
    Generic,
    Computer,
    SpeedSensor,
    CadenceSensor,
    PowerSensor,
    SpeedAndCadenceSensor,
}

/// Generic-control-device subcategories.
#[derive(Clone, Copy, Debug, PartialEq, Eq, Structural)]
pub enum GenericControlDevice {
    Generic,
    Switch,
    MultiSwitch,
    Button,
    Slider,
    Rotary,
    TouchPanel,
}

/// Generic-network-device subcategories.
#[derive(Clone, Copy, Debug, PartialEq, Eq, Structural)]
pub enum GenericNetworkDevice {
    Generic,
    AccessPoint,
}

/// Sensor subcategories.
#[derive(Clone, Copy, Debug, PartialEq, Eq, Structural)]
pub enum Sensor {
    Generic,
    Motion,
    AirQuality,
    Temperature,
    Humidity,
    Leak,
    Smoke,
    Occupancy,
    Contact,
    CarbonMonoxide,
    CarbonDioxide,
    AmbientLight,
    Energy,
    ColorLight,
    Rain,
    Fire,
    Wind,
    Proximity,
    MultiSensor,
}

/// Light-fixture subcategories.
#[derive(Clone, Copy, Debug, PartialEq, Eq, Structural)]
pub enum LightFixture {
    Generic,
    WallLight,
    CeilingLight,
    FloorLight,
    CabinetLight,
    DeskLight,
    TrofferLight,
    PendandtLight,
    InGroundLight,
    FloodLight,
    UnderwaterLight,
    BollardLight,
    PathwatLight,
    GardenLight,
    PoleTopLight,
    Spotlight,
    LinearLight,
    StreetLight,
    ShelvesLight,
    HighBayLowBayLight,
    EmergencyExitLight,
}

/// Fan subcategories.
#[derive(Clone, Copy, Debug, PartialEq, Eq, Structural)]
pub enum Fan {
    Generic,
    Ceiling,
    Axial,
    Exhaust,
    Pedestal,
    Desk,
    Wall,
}

/// The decoded appearance of a device.
#[derive(Clone, Copy, Debug, PartialEq, Eq, Structural)]
pub enum Appearance {
    Unknown,
    Phone,
    Computer,
    Watch(Watch),
    Clock,
    Display,
    RemoteControl,
    EyeGlasses,
    Tag,
    Keyring,
    MediaPlayer,
    BarcodeScanner,
    Thermometer(Thermometer),
    HeartRateSensor(HeartRateSensor),
    BloodPressure(BloodPressure),
    HumanInterfaceDevice(HumanInterfaceDevice),
    GlucoseMeter,
    RunningWalkingSensor(RunningWalkingSensor),
    Cycling(Cycling),
    GenericControlDevice(GenericControlDevice),
    GenericNetworkDevice(GenericNetworkDevice),
    Sensor(Sensor),
    LightFixture(LightFixture),
    Fan(Fan),
}

impl Appearance {
    /// The category field: the top 10 bits of the wire value.
    pub open spec fn spec_category(value: u16) -> u16 {
        (0b1111_1111_1100_0000 & value) >> 6
    }

    /// The subcategory field: the bottom 6 bits of the wire value.
    pub open spec fn spec_sub_category(value: u16) -> u16 {
        0b0000_0000_0011_1111 & value
    }

    /// The appearance each 16-bit wire value names.  Total over all values:
    /// an unrecognised subcategory gives the category's generic variant, an
    /// unrecognised category gives `Unknown`.
    pub open spec fn spec_from_wire(value: u16) -> Appearance {
        let category = Appearance::spec_category(value);
        let sub_category = Appearance::spec_sub_category(value);
        if category == 1 {
            Appearance::Phone
        } else if category == 2 {
            Appearance::Computer
        } else if category == 3 {
            if sub_category == 1 {
                Appearance::Watch(Watch::Sport)
            } else {
                Appearance::Watch(Watch::Generic)
            }
        } else if category == 4 {
            Appearance::Clock
        } else if category == 5 {
            Appearance::Display
        } else if category == 6 {
            Appearance::RemoteControl
        } else if category == 7 {
            Appearance::EyeGlasses
        } else if category == 8 {
            Appearance::Tag
        } else if category == 9 {
            Appearance::Keyring
        } else if category == 10 {
            Appearance::MediaPlayer
        } else if category == 11 {
            Appearance::BarcodeScanner
        } else if category == 12 {
            if sub_category == 1 {
                Appearance::Thermometer(Thermometer::Ear)
            } else {
                Appearance::Thermometer(Thermometer::Generic)
            }
        } else if category == 13 {
            if sub_category == 1 {
                Appearance::HeartRateSensor(HeartRateSensor::Belt)
            } else {
                Appearance::HeartRateSensor(HeartRateSensor::Generic)
            }
        } else if category == 14 {
            if sub_category == 1 {
                Appearance::BloodPressure(BloodPressure::Arm)
            } else if sub_category == 2 {
                Appearance::BloodPressure(BloodPressure::Wrist)
            } else {
                Appearance::BloodPressure(BloodPressure::Generic)
            }
        } else if category == 15 {
            Appearance::HumanInterfaceDevice(Appearance::spec_hid(sub_category))
        } else if category == 16 {
            Appearance::GlucoseMeter
        } else if category == 17 {
            if sub_category == 1 {
                Appearance::RunningWalkingSensor(RunningWalkingSensor::InShoe)
            } else if sub_category == 2 {
                Appearance::RunningWalkingSensor(RunningWalkingSensor::OnShoe)
            } else if sub_category == 3 {
                Appearance::RunningWalkingSensor(RunningWalkingSensor::OnHip)
            } else {
                Appearance::RunningWalkingSensor(RunningWalkingSensor::Generic)
            }
        } else if category == 18 {
            Appearance::Cycling(Appearance::spec_cycling(sub_category))
        } else if category == 19 {
            Appearance::GenericControlDevice(Appearance::spec_control(sub_category))
        } else if category == 20 {
            if sub_category == 1 {
                Appearance::GenericNetworkDevice(GenericNetworkDevice::AccessPoint)
            } else {
                Appearance::GenericNetworkDevice(GenericNetworkDevice::Generic)
            }
        } else if category == 21 {
            Appearance::Sensor(Appearance::spec_sensor(sub_category))
        } else if category == 22 {
            Appearance::LightFixture(Appearance::spec_light_fixture(sub_category))
        } else if category == 23 {
            Appearance::Fan(Appearance::spec_fan(sub_category))
        } else {
            Appearance::Unknown
        }
    }

    /// The human-interface-device table.
    pub open spec fn spec_hid(sub_category: u16) -> HumanInterfaceDevice {
        if sub_category == 1 {
            HumanInterfaceDevice::Keyboard
        } else if sub_category == 2 {
            HumanInterfaceDevice::Mouse
        } else if sub_category == 3 {
            HumanInterfaceDevice::Joystick
        } else if sub_category == 4 {
            HumanInterfaceDevice::Gamepad
        } else if sub_category == 5 {
            HumanInterfaceDevice::DigitizerTablet
        } else if sub_category == 6 {
            HumanInterfaceDevice::CardReader
        } else if sub_category == 7 {
            HumanInterfaceDevice::DigitalPen
        } else if sub_category == 8 {
            HumanInterfaceDevice::BarcodeScanner
        } else {
            HumanInterfaceDevice::Generic
        }
    }

    /// The cycling table.
    pub open spec fn spec_cycling(sub_category: u16) -> Cycling {
        if sub_category == 1 {
            Cycling::Computer
        } else if sub_category == 2 {
            Cycling::SpeedSensor
        } else if sub_category == 3 {
            Cycling::CadenceSensor
        } else if sub_category == 4 {
            Cycling::PowerSensor
        } else if sub_category == 5 {
            Cycling::SpeedAndCadenceSensor
        } else {
            Cycling::Generic
        }
    }

    /// The generic-control-device table.
    pub open spec fn spec_control(sub_category: u16) -> GenericControlDevice {
        if sub_category == 1 {
            GenericControlDevice::Switch
        } else if sub_category == 2 {
            GenericControlDevice::MultiSwitch
        } else if sub_category == 3 {
            GenericControlDevice::Button
        } else if sub_category == 4 {
            GenericControlDevice::Slider
        } else if sub_category == 5 {
            GenericControlDevice::Rotary
        } else if sub_category == 6 {
            GenericControlDevice::TouchPanel
        } else {
            GenericControlDevice::Generic
        }
    }

    /// The sensor table.
    pub open spec fn spec_sensor(sub_category: u16) -> Sensor {
        if sub_category == 1 {
            Sensor::Motion
        } else if sub_category == 2 {
            Sensor::AirQuality
        } else if sub_category == 3 {
            Sensor::Temperature
        } else if sub_category == 4 {
            Sensor::Humidity
        } else if sub_category == 5 {
            Sensor::Leak
        } else if sub_category == 6 {
            Sensor::Smoke
        } else if sub_category == 7 {
            Sensor::Occupancy
        } else if sub_category == 8 {
            Sensor::Contact
        } else if sub_category == 9 {
            Sensor::CarbonMonoxide
        } else if sub_category == 10 {
            Sensor::CarbonDioxide
        } else if sub_category == 11 {
            Sensor::AmbientLight
        } else if sub_category == 12 {
            Sensor::Energy
        } else if sub_category == 13 {
            Sensor::ColorLight
        } else if sub_category == 14 {
            Sensor::Rain
        } else if sub_category == 15 {
            Sensor::Fire
        } else if sub_category == 16 {
            Sensor::Wind
        } else if sub_category == 17 {
            Sensor::Proximity
        } else if sub_category == 18 {
            Sensor::MultiSensor
        } else {
            Sensor::Generic
        }
    }

    /// The light-fixture table.
    pub open spec fn spec_light_fixture(sub_category: u16) -> LightFixture {
        if sub_category == 1 {
            LightFixture::WallLight
        } else if sub_category == 2 {
            LightFixture::CeilingLight
        } else if sub_category == 3 {
            LightFixture::FloorLight
        } else if sub_category == 4 {
            LightFixture::CabinetLight
        } else if sub_category == 5 {
            LightFixture::DeskLight
        } else if sub_category == 6 {
            LightFixture::TrofferLight
        } else if sub_category == 7 {
            LightFixture::PendandtLight
        } else if sub_category == 8 {
            LightFixture::InGroundLight
        } else if sub_category == 9 {
            LightFixture::FloodLight
        } else if sub_category == 10 {
            LightFixture::UnderwaterLight
        } else if sub_category == 11 {
            LightFixture::BollardLight
        } else if sub_category == 12 {
            LightFixture::PathwatLight
        } else if sub_category == 13 {
            LightFixture::GardenLight
        } else if sub_category == 14 {
            LightFixture::PoleTopLight
        } else if sub_category == 15 {
            LightFixture::Spotlight
        } else if sub_category == 16 {
            LightFixture::LinearLight
        } else if sub_category == 17 {
            LightFixture::StreetLight
        } else if sub_category == 18 {
            LightFixture::ShelvesLight
        } else if sub_category == 19 {
            LightFixture::HighBayLowBayLight
        } else if sub_category == 20 {
            LightFixture::EmergencyExitLight
        } else {
            LightFixture::Generic
        }
    }

    /// The fan table.
    pub open spec fn spec_fan(sub_category: u16) -> Fan {
        if sub_category == 1 {
            Fan::Ceiling
        } else if sub_category == 2 {
            Fan::Axial
        } else if sub_category == 3 {
            Fan::Exhaust
        } else if sub_category == 4 {
            Fan::Pedestal
        } else if sub_category == 5 {
            Fan::Desk
        } else if sub_category == 6 {
            Fan::Wall
        } else {
            Fan::Generic
        }
    }

    /// Decode the 16-bit wire value.  Never fails: every value maps to some
    /// appearance.
    pub fn from_wire(value: u16) -> (r: Appearance)
        ensures
            r == Appearance::spec_from_wire(value),
    {
        let category = (0b1111_1111_1100_0000 & value) >> 6;
        let sub_category = 0b0000_0000_0011_1111 & value;
        match (category, sub_category) {
            (1, _) => Appearance::Phone,
            (2, _) => Appearance::Computer,
            (3, 1) => Appearance::Watch(Watch::Sport),
            (3, _) => Appearance::Watch(Watch::Generic),
            (4, _) => Appearance::Clock,
            (5, _) => Appearance::Display,
            (6, _) => Appearance::RemoteControl,
            (7, _) => Appearance::EyeGlasses,
            (8, _) => Appearance::Tag,
            (9, _) => Appearance::Keyring,
            (10, _) => Appearance::MediaPlayer,
            (11, _) => Appearance::BarcodeScanner,
            (12, 1) => Appearance::Thermometer(Thermometer::Ear),
            (12, _) => Appearance::Thermometer(Thermometer::Generic),
            (13, 1) => Appearance::HeartRateSensor(HeartRateSensor::Belt),
            (13, _) => Appearance::HeartRateSensor(HeartRateSensor::Generic),
            (14, 1) => Appearance::BloodPressure(BloodPressure::Arm),
            (14, 2) => Appearance::BloodPressure(BloodPressure::Wrist),
            (14, _) => Appearance::BloodPressure(BloodPressure::Generic),
            (15, 1) => Appearance::HumanInterfaceDevice(HumanInterfaceDevice::Keyboard),
            (15, 2) => Appearance::HumanInterfaceDevice(HumanInterfaceDevice::Mouse),
            (15, 3) => Appearance::HumanInterfaceDevice(HumanInterfaceDevice::Joystick),
            (15, 4) => Appearance::HumanInterfaceDevice(HumanInterfaceDevice::Gamepad),
            (15, 5) => Appearance::HumanInterfaceDevice(HumanInterfaceDevice::DigitizerTablet),
            (15, 6) => Appearance::HumanInterfaceDevice(HumanInterfaceDevice::CardReader),
            (15, 7) => Appearance::HumanInterfaceDevice(HumanInterfaceDevice::DigitalPen),
            (15, 8) => Appearance::HumanInterfaceDevice(HumanInterfaceDevice::BarcodeScanner),
            (15, _) => Appearance::HumanInterfaceDevice(HumanInterfaceDevice::Generic),
            (16, _) => Appearance::GlucoseMeter,
            (17, 1) => Appearance::RunningWalkingSensor(RunningWalkingSensor::InShoe),
            (17, 2) => Appearance::RunningWalkingSensor(RunningWalkingSensor::OnShoe),
            (17, 3) => Appearance::RunningWalkingSensor(RunningWalkingSensor::OnHip),
            (17, _) => Appearance::RunningWalkingSensor(RunningWalkingSensor::Generic),
            (18, 1) => Appearance::Cycling(Cycling::Computer),
            (18, 2) => Appearance::Cycling(Cycling::SpeedSensor),
            (18, 3) => Appearance::Cycling(Cycling::CadenceSensor),
            (18, 4) => Appearance::Cycling(Cycling::PowerSensor),
            (18, 5) => Appearance::Cycling(Cycling::SpeedAndCadenceSensor),
            (18, _) => Appearance::Cycling(Cycling::Generic),
            (19, 1) => Appearance::GenericControlDevice(GenericControlDevice::Switch),
            (19, 2) => Appearance::GenericControlDevice(GenericControlDevice::MultiSwitch),
            (19, 3) => Appearance::GenericControlDevice(GenericControlDevice::Button),
            (19, 4) => Appearance::GenericControlDevice(GenericControlDevice::Slider),
            (19, 5) => Appearance::GenericControlDevice(GenericControlDevice::Rotary),
            (19, 6) => Appearance::GenericControlDevice(GenericControlDevice::TouchPanel),
            (19, _) => Appearance::GenericControlDevice(GenericControlDevice::Generic),
            (20, 1) => Appearance::GenericNetworkDevice(GenericNetworkDevice::AccessPoint),
            (20, _) => Appearance::GenericNetworkDevice(GenericNetworkDevice::Generic),
            (21, 1) => Appearance::Sensor(Sensor::Motion),
            (21, 2) => Appearance::Sensor(Sensor::AirQuality),
            (21, 3) => Appearance::Sensor(Sensor::Temperature),
            (21, 4) => Appearance::Sensor(Sensor::Humidity),
            (21, 5) => Appearance::Sensor(Sensor::Leak),
            (21, 6) => Appearance::Sensor(Sensor::Smoke),
            (21, 7) => Appearance::Sensor(Sensor::Occupancy),
            (21, 8) => Appearance::Sensor(Sensor::Contact),
            (21, 9) => Appearance::Sensor(Sensor::CarbonMonoxide),
            (21, 10) => Appearance::Sensor(Sensor::CarbonDioxide),
            (21, 11) => Appearance::Sensor(Sensor::AmbientLight),
            (21, 12) => Appearance::Sensor(Sensor::Energy),
            (21, 13) => Appearance::Sensor(Sensor::ColorLight),
            (21, 14) => Appearance::Sensor(Sensor::Rain),
            (21, 15) => Appearance::Sensor(Sensor::Fire),
            (21, 16) => Appearance::Sensor(Sensor::Wind),
            (21, 17) => Appearance::Sensor(Sensor::Proximity),
            (21, 18) => Appearance::Sensor(Sensor::MultiSensor),
            (21, _) => Appearance::Sensor(Sensor::Generic),
            (22, 1) => Appearance::LightFixture(LightFixture::WallLight),
            (22, 2) => Appearance::LightFixture(LightFixture::CeilingLight),
            (22, 3) => Appearance::LightFixture(LightFixture::FloorLight),
            (22, 4) => Appearance::LightFixture(LightFixture::CabinetLight),
            (22, 5) => Appearance::LightFixture(LightFixture::DeskLight),
            (22, 6) => Appearance::LightFixture(LightFixture::TrofferLight),
            (22, 7) => Appearance::LightFixture(LightFixture::PendandtLight),
            (22, 8) => Appearance::LightFixture(LightFixture::InGroundLight),
            (22, 9) => Appearance::LightFixture(LightFixture::FloodLight),
            (22, 10) => Appearance::LightFixture(LightFixture::UnderwaterLight),
            (22, 11) => Appearance::LightFixture(LightFixture::BollardLight),
            (22, 12) => Appearance::LightFixture(LightFixture::PathwatLight),
            (22, 13) => Appearance::LightFixture(LightFixture::GardenLight),
            (22, 14) => Appearance::LightFixture(LightFixture::PoleTopLight),
            (22, 15) => Appearance::LightFixture(LightFixture::Spotlight),
            (22, 16) => Appearance::LightFixture(LightFixture::LinearLight),
            (22, 17) => Appearance::LightFixture(LightFixture::StreetLight),
            (22, 18) => Appearance::LightFixture(LightFixture::ShelvesLight),
            (22, 19) => Appearance::LightFixture(LightFixture::HighBayLowBayLight),
            (22, 20) => Appearance::LightFixture(LightFixture::EmergencyExitLight),
            (22, _) => Appearance::LightFixture(LightFixture::Generic),
            (23, 1) => Appearance::Fan(Fan::Ceiling),
            (23, 2) => Appearance::Fan(Fan::Axial),
            (23, 3) => Appearance::Fan(Fan::Exhaust),
            (23, 4) => Appearance::Fan(Fan::Pedestal),
            (23, 5) => Appearance::Fan(Fan::Desk),
            (23, 6) => Appearance::Fan(Fan::Wall),
            (23, _) => Appearance::Fan(Fan::Generic),
            (_, _) => Appearance::Unknown,
        }
    }
}

} // verus!
