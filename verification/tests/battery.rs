use mecha_sdk::battery_ctrl::errors::PowerSupplyErrorCodes;
use mecha_sdk::battery_ctrl::power_supply::{Battery, PowerSupply, PowerSupplyInfo};

fn battery() -> Battery {
    Battery { path: "/sys/class/power_supply/bq27441-0/uevent".to_string(), currnet_now: "/sys/current_now".to_string() }
}

#[test]
fn report_is_read_line_by_line() {
    let report = "POWER_SUPPLY_NAME=bq27441-0\nPOWER_SUPPLY_TYPE=Battery\nPOWER_SUPPLY_STATUS=Discharging\n\
POWER_SUPPLY_PRESENT=1\nPOWER_SUPPLY_VOLTAGE_NOW=3912000\nPOWER_SUPPLY_CURRENT_NOW=-215000\n\
POWER_SUPPLY_CAPACITY=67\nPOWER_SUPPLY_CAPACITY_LEVEL=Normal\nPOWER_SUPPLY_TEMP=291\n\
POWER_SUPPLY_TECHNOLOGY=Li-ion\nPOWER_SUPPLY_CHARGE_FULL=2800000\nPOWER_SUPPLY_CHARGE_NOW=1876000\n\
POWER_SUPPLY_CHARGE_FULL_DESIGN=3000000\nPOWER_SUPPLY_MANUFACTURER=Texas Instruments\n";
    let supply = battery().info(report).unwrap();
    assert_eq!(
        supply,
        PowerSupply {
            name: "bq27441-0".to_string(),
            supply_type: "Battery".to_string(),
            status: "Discharging".to_string(),
            present: true,
            voltage_now: 3912000,
            current_now: -215000,
            capacity: 67,
            capacity_level: "Normal".to_string(),
            temp: 291,
            technology: "Li-ion".to_string(),
            charge_full: 2800000,
            charge_now: 1876000,
            charge_full_design: 3000000,
            manufacturer: "Texas Instruments".to_string(),
        }
    );
}

#[test]
fn report_edge_cases() {
    assert_eq!(battery().info("").unwrap(), PowerSupply::unknown());
    let report = " POWER_SUPPLY_NAME = first \r\nUNKNOWN_KEY=9\nno equals sign\nPOWER_SUPPLY_NAME=second=third\n\
POWER_SUPPLY_CAPACITY=300\nPOWER_SUPPLY_VOLTAGE_NOW=-5\nPOWER_SUPPLY_TEMP=abc\nPOWER_SUPPLY_PRESENT=yes\n\
POWER_SUPPLY_CURRENT_NOW=+12\nPOWER_SUPPLY_STATUS\nPOWER_SUPPLY_TYPE=\nPOWER_SUPPLY_CHARGE_NOW=7";
    let supply = battery().info(report).unwrap();
    assert_eq!(supply.name, "second=third");
    assert_eq!(supply.capacity, 0);
    assert_eq!(supply.voltage_now, 0);
    assert_eq!(supply.temp, 0);
    assert!(!supply.present);
    assert_eq!(supply.current_now, 12);
    assert_eq!(supply.status, "");
    assert_eq!(supply.supply_type, "");
    assert_eq!(supply.charge_now, 7);
    let supply = battery().info("POWER_SUPPLY_NAME= first \r\n").unwrap();
    assert_eq!(supply.name, "first");
    let supply = battery().info("POWER_SUPPLY_PRESENT=1\nPOWER_SUPPLY_PRESENT=0").unwrap();
    assert!(!supply.present);
}

#[test]
fn entries_fill_their_fields() {
    let mut supply = PowerSupply::unknown();
    supply.record("POWER_SUPPLY_CHARGE_FULL", "4294967295");
    supply.record("POWER_SUPPLY_CHARGE_FULL_DESIGN", "4294967296");
    supply.record("POWER_SUPPLY_TEMP", "-2147483648");
    supply.record("POWER_SUPPLY_CAPACITY", "255");
    supply.record("power_supply_name", "lower");
    supply.record("POWER_SUPPLY_TECHNOLOGY", "Li-poly");
    supply.record("POWER_SUPPLY_CAPACITY_LEVEL", "High");
    supply.record("POWER_SUPPLY_MANUFACTURER", "");
    assert_eq!(supply.charge_full, u32::MAX);
    assert_eq!(supply.charge_full_design, 0);
    assert_eq!(supply.temp, i32::MIN);
    assert_eq!(supply.capacity, 255);
    assert_eq!(supply.name, "");
    assert_eq!(supply.technology, "Li-poly");
    assert_eq!(supply.capacity_level, "High");
}

#[test]
fn device_path_must_not_be_empty() {
    let mut battery = Battery::default();
    let error = battery.get_device().unwrap_err();
    assert_eq!(error.code, PowerSupplyErrorCodes::FailedToOpenFile);
    assert_eq!(error.message, "Device path is empty");
    let error = battery.set_device("").unwrap_err();
    assert_eq!(error.code, PowerSupplyErrorCodes::FailedToOpenFile);
    assert_eq!(error.message, "failed to set device");
    assert_eq!(battery.path, "");
    assert!(battery.set_device("/sys/class/power_supply/bat/uevent").is_ok());
    assert_eq!(battery.get_device().unwrap(), "/sys/class/power_supply/bat/uevent");
    assert!(battery.set_device("").is_err());
    assert_eq!(battery.path, "/sys/class/power_supply/bat/uevent");
}

#[test]
fn current_is_a_signed_number() {
    let battery = battery();
    assert_eq!(battery.get_current("-215000\n").unwrap(), -215000);
    assert_eq!(battery.get_current("  42  ").unwrap(), 42);
    assert_eq!(battery.get_current("9223372036854775807").unwrap(), i64::MAX);
    assert_eq!(battery.get_current("-9223372036854775808").unwrap(), i64::MIN);
    let error = battery.get_current("9223372036854775808").unwrap_err();
    assert_eq!(error.code, PowerSupplyErrorCodes::InvalidDataFormat);
    assert_eq!(error.message, "Failed to parse current_now value");
    assert!(battery.get_current("").is_err());
    assert!(battery.get_current("12 mA").is_err());
    assert_eq!(error.to_string(), "(code: InvalidDataFormat, message: Failed to parse current_now value)");
}
