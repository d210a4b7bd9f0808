use smart_home_core::bluetooth::{discover_bluetooth_devices, download_and_install_driver};
use smart_home_core::bulb::SmartBulb;
use smart_home_core::home_assistant::{control_home_assistant_device, discover_home_assistant_devices};

#[test]
fn driver_install_needs_approval() {
    assert_eq!(download_and_install_driver("Bluetooth Speaker", false), "User denied driver installation.");
}

#[test]
fn approved_driver_is_installed() {
    assert_eq!(download_and_install_driver("Bluetooth Speaker", true), "Driver for Bluetooth Speaker installed.");
}

#[test]
fn placeholders_do_nothing() {
    discover_bluetooth_devices();
    discover_home_assistant_devices();
    control_home_assistant_device("ha-001", "on");
}

#[test]
fn new_bulb_is_off_bright_and_white() {
    let b = SmartBulb::new("Living Room 1");
    assert_eq!(b.name, "Living Room 1");
    assert!(!b.is_on);
    assert_eq!(b.brightness, 100);
    assert_eq!(b.color, (255, 255, 255));
}

#[test]
fn bulb_switches_and_keeps_settings() {
    let mut b = SmartBulb::new("Master Bedroom");
    b.set_color(0, 0, 255);
    b.set_brightness(40);
    b.turn_on();
    assert!(b.is_on);
    assert_eq!(b.brightness, 40);
    assert_eq!(b.color, (0, 0, 255));
    b.turn_off();
    assert!(!b.is_on);
    assert_eq!(b.color, (0, 0, 255));
}

#[test]
fn brightness_is_capped_at_one_hundred() {
    let mut b = SmartBulb::new("Hall");
    b.set_brightness(150);
    assert_eq!(b.brightness, 100);
    b.set_brightness(100);
    assert_eq!(b.brightness, 100);
    b.set_brightness(0);
    assert_eq!(b.brightness, 0);
}
