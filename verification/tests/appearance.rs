//! The two-level appearance table.

use bt_mgmt::appearance::{Fan, HumanInterfaceDevice, LightFixture, Sensor, Watch};
use bt_mgmt::Appearance;

#[test]
fn appearance_examples() {
    // Category 3 (watch), subcategory 1 (sport).
    assert_eq!(Appearance::from_wire(0x00c1), Appearance::Watch(Watch::Sport));
    // Category 0 is unrecognised.
    assert_eq!(Appearance::from_wire(0x0000), Appearance::Unknown);
}

#[test]
fn appearance_category_fallbacks() {
    // A known category with an unrecognised subcategory falls back to the
    // category's generic variant.
    assert_eq!(
        Appearance::from_wire(3 << 6 | 0x3f),
        Appearance::Watch(Watch::Generic)
    );
    assert_eq!(
        Appearance::from_wire(15 << 6 | 0x30),
        Appearance::HumanInterfaceDevice(HumanInterfaceDevice::Generic)
    );
    assert_eq!(
        Appearance::from_wire(22 << 6 | 0x3f),
        Appearance::LightFixture(LightFixture::Generic)
    );
    // A category past the known table is unknown, whatever the subcategory.
    assert_eq!(Appearance::from_wire(24 << 6), Appearance::Unknown);
    assert_eq!(Appearance::from_wire(0xffff), Appearance::Unknown);
}

#[test]
fn appearance_known_pairs() {
    assert_eq!(Appearance::from_wire(1 << 6), Appearance::Phone);
    assert_eq!(Appearance::from_wire(2 << 6 | 5), Appearance::Computer);
    assert_eq!(
        Appearance::from_wire(15 << 6 | 2),
        Appearance::HumanInterfaceDevice(HumanInterfaceDevice::Mouse)
    );
    assert_eq!(
        Appearance::from_wire(21 << 6 | 18),
        Appearance::Sensor(Sensor::MultiSensor)
    );
    assert_eq!(
        Appearance::from_wire(23 << 6 | 6),
        Appearance::Fan(Fan::Wall)
    );
}
