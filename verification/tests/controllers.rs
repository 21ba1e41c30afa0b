use mecha_sdk::bluetooth_manager::bluetooth::BluetoothController;
use mecha_sdk::bluetooth_manager::errors::BluetoothErrorCodes;
use mecha_sdk::cpu_governor_ctrl::cpu_ctrl::{CpuCtrl, CpuFrequency};
use mecha_sdk::cpu_governor_ctrl::errors::{CpuCtrlError, CpuCtrlErrorCodes};
use mecha_sdk::device_info::device_info::{CpuInfo, CpuReading, DeviceInfo, DiskInfo, DiskReading, MemoryInfo};
use mecha_sdk::device_info::errors::{DeviceInfoError, DeviceInfoErrorCodes};
use mecha_sdk::display_ctrl::display::DisplayCtrl;
use mecha_sdk::display_ctrl::errors::DisplayErrorCodes;
use mecha_sdk::file::{FileWrite, ReadError, WriteError};
use mecha_sdk::led_ctrl::errors::LedCtrlErrorCodes;
use mecha_sdk::led_ctrl::led::{LedColor, LedCtrl};
use mecha_sdk::metrics::errors::{DeviceMetricsError, DeviceMetricsErrorCodes};
use mecha_sdk::metrics::metrics::{DeviceMetrics, DiskSpace};
use mecha_sdk::motion_sensor::errors::{MotionSensorError, MotionSensorErrorCodes};
use mecha_sdk::motion_sensor::motion_sensor::{Axis, MotionSensor, Moved, ValueError};

fn write(path: &str, contents: &str) -> FileWrite {
    FileWrite { path: path.to_string(), contents: contents.to_string() }
}

#[test]
fn led_writes_one_to_light_and_zero_to_clear() {
    let led = LedCtrl::new("/sys/red", "/sys/green", "/sys/blue");
    assert_eq!(led.write_brightness(LedColor::Red, true), write("/sys/red", "1"));
    assert_eq!(led.write_brightness(LedColor::Green, true), write("/sys/green", "1"));
    assert_eq!(led.write_brightness(LedColor::Blue, false), write("/sys/blue", "0"));
    assert!(led.set_led(Ok(())).is_ok());
    assert!(led.clear_led(Ok(())).is_ok());
    let error = led.set_led(Err("Permission denied".to_string())).unwrap_err();
    assert_eq!(error.code, LedCtrlErrorCodes::InvalidLedPathValueError);
    assert_eq!(error.message, "unable to write brightness value: Permission denied");
    let error = led.clear_led(Err("Permission denied".to_string())).unwrap_err();
    assert_eq!(error.to_string(), "(code: InvalidLedPathValueError, message: unable to read brightness value: Permission denied)");
}

#[test]
fn led_colour_numbers() {
    assert_eq!(LedColor::from_code(0), Some(LedColor::Red));
    assert_eq!(LedColor::from_code(1), Some(LedColor::Green));
    assert_eq!(LedColor::from_code(2), Some(LedColor::Blue));
    assert_eq!(LedColor::from_code(3), None);
    assert_eq!(LedColor::from_code(-1), None);
}

#[test]
fn cpu_paths_and_writes() {
    let cpu = CpuCtrl::new();
    assert_eq!(cpu.cpu_frequency_path, "/sys/devices/system/cpu/cpu0/cpufreq");
    assert_eq!(cpu.governor_path(), "/sys/devices/system/cpu/cpu0/cpufreq/scaling_governor");
    assert_eq!(cpu.frequency_path(), "/sys/devices/system/cpu/cpu0/cpufreq/scaling_cur_freq");
    assert_eq!(cpu.governor_write(), write("/sys/devices/system/cpu/cpu0/cpufreq/scaling_governor", "userspace"));
    assert_eq!(
        cpu.frequency_write(CpuFrequency::Freq1200000),
        write("/sys/devices/system/cpu/cpu0/cpufreq/scaling_setspeed", "1200000")
    );
    assert_eq!(cpu.frequency_write(CpuFrequency::Freq1600000).contents, "1600000");
    assert_eq!(cpu.frequency_write(CpuFrequency::Freq1800000).contents, "1800000");
}

#[test]
fn cpu_failures_carry_the_cause() {
    let cpu = CpuCtrl::new();
    assert!(cpu.set_cpu_governor(Ok(())).is_ok());
    let error = cpu.set_cpu_governor(Err(WriteError::Create("denied".to_string()))).unwrap_err();
    assert_eq!(error.code, CpuCtrlErrorCodes::FailedToSetCpuGovernorPath);
    assert_eq!(error.message, "failed to set CPU governor: denied");
    let error = cpu.set_cpu_governor(Err(WriteError::Write("busy".to_string()))).unwrap_err();
    assert_eq!(error.code, CpuCtrlErrorCodes::FailedToSetCpuGovernor);
    assert_eq!(error.message, "failed to set CPU governor: busy");
    assert!(cpu.set_cpu_frequency(Ok(())).is_ok());
    let error = cpu.set_cpu_frequency(Err(WriteError::Create("denied".to_string()))).unwrap_err();
    assert_eq!(error.code, CpuCtrlErrorCodes::FailedToSetCpuFrequencyPath);
    assert_eq!(error.message, "failed to set CPU frequency: denied");
    let error = cpu.set_cpu_frequency(Err(WriteError::Write("busy".to_string()))).unwrap_err();
    assert_eq!(error.code, CpuCtrlErrorCodes::FailedToSetCpuFrequency);
    assert_eq!(cpu.get_cpu_governor(Ok("userspace\n".to_string())).unwrap(), "userspace\n");
    let error = cpu.get_cpu_governor(Err("gone".to_string())).unwrap_err();
    assert_eq!(error.code, CpuCtrlErrorCodes::FailedToGetCpuGovernor);
    assert_eq!(error.message, "failed to get CPU governor: gone");
    assert_eq!(cpu.get_cpu_frequency(Ok("1200000\n".to_string())).unwrap(), "1200000\n");
    let error = cpu.get_cpu_frequency(Err("gone".to_string())).unwrap_err();
    assert_eq!(error.to_string(), "(code: FailedToGetCpuFrequency, message: failed to get CPU frequency: gone)");
    let error = CpuCtrlError::new(CpuCtrlErrorCodes::UnknownError, "x".to_string());
    assert_eq!(error.to_string(), "(code: UnknownError, message: x)");
}

#[test]
fn cpu_frequency_of_a_request() {
    assert_eq!(CpuFrequency::from_request("1200"), Some(CpuFrequency::Freq1200000));
    assert_eq!(CpuFrequency::from_request("1600"), Some(CpuFrequency::Freq1600000));
    assert_eq!(CpuFrequency::from_request("1800"), Some(CpuFrequency::Freq1800000));
    assert_eq!(CpuFrequency::from_request("1200000"), None);
    assert_eq!(CpuFrequency::from_request(""), None);
}

#[test]
fn display_brightness_is_bounded() {
    let display = DisplayCtrl::new("/sys/class/backlight/brightness");
    assert_eq!(display.brightness_write(0).unwrap(), write("/sys/class/backlight/brightness", "0"));
    assert_eq!(display.brightness_write(99).unwrap().contents, "99");
    assert_eq!(display.brightness_write(244).unwrap().contents, "244");
    let error = display.brightness_write(245).unwrap_err();
    assert_eq!(error.code, DisplayErrorCodes::InvalidBrightnessValueError);
    assert_eq!(error.message, "invalid brightness value");
    assert!(display.brightness_write(255).is_err());
}

#[test]
fn display_failures() {
    let display = DisplayCtrl::new("/b");
    assert!(display.set_display_brightness(Ok(())).is_ok());
    let error = display.set_display_brightness(Err(WriteError::Create("denied".to_string()))).unwrap_err();
    assert_eq!(error.code, DisplayErrorCodes::InvalidBrightnessPathError);
    assert_eq!(error.message, "failed to open brightness file");
    let error = display.set_display_brightness(Err(WriteError::Write("full".to_string()))).unwrap_err();
    assert_eq!(error.code, DisplayErrorCodes::InvalidBrightnessValueError);
    assert_eq!(error.message, "unable to write brightness value: full");
}

#[test]
fn display_reads_the_first_line() {
    let display = DisplayCtrl::new("/b");
    assert_eq!(display.get_display_brightness(Ok("128".to_string())).unwrap(), 128);
    assert_eq!(display.get_display_brightness(Ok("  7\t".to_string())).unwrap(), 7);
    assert_eq!(display.get_display_brightness(Ok("255".to_string())).unwrap(), 255);
    let error = display.get_display_brightness(Ok("256".to_string())).unwrap_err();
    assert_eq!(error.code, DisplayErrorCodes::InvalidBrightnessValueError);
    assert_eq!(error.message, "Failed to parse brightness value");
    assert!(display.get_display_brightness(Ok("".to_string())).is_err());
    assert!(display.get_display_brightness(Ok("-1".to_string())).is_err());
    let error = display.get_display_brightness(Err(ReadError::Open("gone".to_string()))).unwrap_err();
    assert_eq!(error.code, DisplayErrorCodes::InvalidBrightnessPathError);
    assert_eq!(error.message, "Failed to open brightness file");
    let error = display.get_display_brightness(Err(ReadError::Empty)).unwrap_err();
    assert_eq!(error.message, "Failed to read brightness value");
    let error = display.get_display_brightness(Err(ReadError::Read("bad utf-8".to_string()))).unwrap_err();
    assert_eq!(error.message, "bad utf-8");
}

#[test]
fn device_memory_and_cpu() {
    let device = DeviceInfo::new();
    assert_eq!(
        device.get_memory_info(8, 2, 5).unwrap(),
        MemoryInfo { total_memory: 8, available_memory: 5, free_memory: 2 }
    );
    assert_eq!(MemoryInfo::default(), MemoryInfo { total_memory: 0, available_memory: 0, free_memory: 0 });
    let reading = CpuReading { brand: "Cortex-A53".to_string(), frequency: 1800 };
    assert_eq!(
        device.get_cpu_info(Some(reading), Some(4)).unwrap(),
        CpuInfo { cpu_name: "Cortex-A53".to_string(), cpu_frequency: 1800, number_of_cores: 4 }
    );
    let reading = CpuReading { brand: "Cortex-A53".to_string(), frequency: 1800 };
    let error = device.get_cpu_info(Some(reading), None).unwrap_err();
    assert_eq!(error.code, DeviceInfoErrorCodes::FailedToGetCpuUsage);
    assert_eq!(error.message, "failed to get CPU info");
    assert!(device.get_cpu_info(None, Some(4)).is_err());
    assert_eq!(CpuInfo::default().cpu_name, "");
    assert_eq!(DiskInfo::default().total_space, 0);
    let error = DeviceInfoError::new(DeviceInfoErrorCodes::FailedToGetMemoryUsage, "m".to_string());
    assert_eq!(error.to_string(), "(code: FailedToGetMemoryUsage, message: m)");
}

#[test]
fn device_disks_keep_their_order() {
    let device = DeviceInfo::new();
    let disks = vec![
        DiskReading {
            name: "mmcblk0p1".to_string(),
            fs: "ext4".to_string(),
            removable: false,
            mount_point: "/".to_string(),
            total_space: 1000,
            available_space: 400,
        },
        DiskReading {
            name: "sda1".to_string(),
            fs: "vfat".to_string(),
            removable: true,
            mount_point: "/media".to_string(),
            total_space: 50,
            available_space: 50,
        },
    ];
    let infos = device.get_disk_info(&disks).unwrap();
    assert_eq!(
        infos,
        vec![
            DiskInfo {
                name: "mmcblk0p1".to_string(),
                fs: "ext4".to_string(),
                removable: false,
                mount_point: "/".to_string(),
                used_space: 600,
                total_space: 1000,
            },
            DiskInfo {
                name: "sda1".to_string(),
                fs: "vfat".to_string(),
                removable: true,
                mount_point: "/media".to_string(),
                used_space: 0,
                total_space: 50,
            },
        ]
    );
    let error = device.get_disk_info(&vec![]).unwrap_err();
    assert_eq!(error.code, DeviceInfoErrorCodes::FailedToGetDiskUsage);
    assert_eq!(error.message, "failed to get disk info");
}

#[test]
fn metrics_usage() {
    let metrics = DeviceMetrics::new(4096, Some(DiskSpace { total_space: 1000, available_space: 250 }));
    assert_eq!(metrics.get_memory_usage().unwrap(), 4096);
    assert_eq!(metrics.get_disk_usage().unwrap(), 750);
    let metrics = DeviceMetrics::new(1, None);
    let error = metrics.get_disk_usage().unwrap_err();
    assert_eq!(error.code, DeviceMetricsErrorCodes::FailedToGetDiskUsage);
    assert_eq!(error.message, "failed to get disk usage");
    let error = DeviceMetricsError::new(DeviceMetricsErrorCodes::FailedToGetCpuUsage, "c".to_string());
    assert_eq!(error.to_string(), "(code: FailedToGetCpuUsage, message: c)");
}

#[test]
fn motion_is_any_axis_off_zero() {
    let sensor = MotionSensor::new("/x", "/y", "/z");
    assert_eq!(sensor.axis_path(Axis::X), "/x");
    assert_eq!(sensor.axis_path(Axis::Y), "/y");
    assert_eq!(sensor.axis_path(Axis::Z), "/z");
    for x in [false, true] {
        for y in [false, true] {
            for z in [false, true] {
                assert_eq!(sensor.detect_motion_sensor_event(Ok(Moved { x, y, z })).unwrap(), x || y || z);
            }
        }
    }
}

#[test]
fn motion_failures_name_the_first_axis() {
    let sensor = MotionSensor::new("/x", "/y", "/z");
    let open = sensor.read_value_from_file(ValueError::Open("gone".to_string()));
    assert_eq!(open.code, MotionSensorErrorCodes::UnableToOpenFile);
    assert_eq!(open.message, "unable to open file value: gone");
    let empty = sensor.read_value_from_file(ValueError::Empty);
    assert_eq!(empty.code, MotionSensorErrorCodes::UnableToOpenFile);
    assert_eq!(empty.message, "unable to open file");
    let read = sensor.read_value_from_file(ValueError::Read("io".to_string()));
    assert_eq!(read.code, MotionSensorErrorCodes::UnableToParseValue);
    assert_eq!(read.message, "unable to parse value: io");
    let parse = sensor.read_value_from_file(ValueError::Parse("invalid float literal".to_string()));
    assert_eq!(parse.message, "unable to parse value: invalid float literal");

    assert!(sensor.read_motion_sensor_value(Ok(()), Ok(()), Ok(())).is_ok());
    let error = sensor.read_motion_sensor_value(Ok(()), Err(empty), Err(read)).unwrap_err();
    assert_eq!(error.code, MotionSensorErrorCodes::UnableToReadMotionSensor);
    assert_eq!(error.message, "unable to read y axis value: (code: UnableToOpenFile, message: unable to open file)");
    let error = sensor.read_motion_sensor_value(Err(open), Ok(()), Err(parse)).unwrap_err();
    assert_eq!(
        error.message,
        "unable to read x axis value: (code: UnableToOpenFile, message: unable to open file value: gone)"
    );
    let z = MotionSensorError::new(MotionSensorErrorCodes::Unknown, "z".to_string());
    let error = sensor.read_motion_sensor_value(Ok(()), Ok(()), Err(z)).unwrap_err();
    assert_eq!(error.message, "unable to read z axis value: (code: Unknown, message: z)");
    let detected = sensor.detect_motion_sensor_event(Err(error)).unwrap_err();
    assert_eq!(detected.code, MotionSensorErrorCodes::UnableToReadMotionSensor);
    assert_eq!(
        detected.message,
        "unable to read motion sensor value: (code: UnableToReadMotionSensor, message: unable to read z axis value: (code: Unknown, message: z))"
    );
    let error = sensor.write_value_to_file(WriteError::Create("denied".to_string()));
    assert_eq!(error.message, "unable to open file value: denied");
    let error = sensor.write_value_to_file(WriteError::Write("full".to_string()));
    assert_eq!(error.code, MotionSensorErrorCodes::UnableToParseValue);
    assert_eq!(error.message, "unable to write data to sensor full");
    assert_eq!(MotionSensorErrorCodes::NoMotionDetected.to_string(), "NoMotionDetected");
}

#[test]
fn bluetooth_answers() {
    let bluetooth = BluetoothController::new();
    assert_eq!(bluetooth.bluetooth_status(Ok(true)).unwrap(), true);
    assert_eq!(bluetooth.bluetooth_status(Ok(false)).unwrap(), false);
    let error = bluetooth.bluetooth_status(Err("no adapter".to_string())).unwrap_err();
    assert_eq!(error.code, BluetoothErrorCodes::UnableToGetBluetoothDeviceStatus);
    assert_eq!(error.message, "unable to get bluetooth status: no adapter");
    assert!(bluetooth.enable_bluetooth(Ok(())).is_ok());
    let error = bluetooth.enable_bluetooth(Err("rfkill".to_string())).unwrap_err();
    assert_eq!(error.code, BluetoothErrorCodes::UnableToTurnOnBluetooth);
    assert_eq!(error.message, "unable to turn on bluetooth: rfkill");
    assert!(bluetooth.disable_bluetooth(Ok(())).is_ok());
    let error = bluetooth.disable_bluetooth(Err("busy".to_string())).unwrap_err();
    assert_eq!(error.to_string(), "(code: UnableToTurnOffBluetooth, message: unable to turn off bluetooth: busy)");
}
