//! The battery: what the kernel's power-supply report says of it, line by line.
//!
//! The report is a text of lines `KEY=VALUE`. A key that is not known is passed over, a
//! key that comes twice counts the last time, and a number that cannot be read counts as
//! zero.

use vstd::prelude::*;
use vstd::string::StringExecFns;
use crate::battery_ctrl::errors::{PowerSupplyError, PowerSupplyErrorCodes, PowerSupplyErrorView};
use crate::text::{
    integer_within,
    lines,
    lines_of,
    parse_integer,
    split_once,
    split_once_of,
    trim,
    trimmed,
};

verus! {

/// What the report says of a power supply.
#[derive(Debug, PartialEq, Eq)]
pub struct PowerSupply {
    pub name: String,
    pub supply_type: String,
    pub status: String,
    pub present: bool,
    pub voltage_now: u32,
    pub current_now: i32,
    pub capacity: u8,
    pub capacity_level: String,
    pub temp: i32,
    pub technology: String,
    pub charge_full: u32,
    pub charge_now: u32,
    pub charge_full_design: u32,
    pub manufacturer: String,
}

/// A power supply as plain values.
pub struct PowerSupplyView {
    pub name: Seq<char>,
    pub supply_type: Seq<char>,
    pub status: Seq<char>,
    pub present: bool,
    pub voltage_now: int,
    pub current_now: int,
    pub capacity: int,
    pub capacity_level: Seq<char>,
    pub temp: int,
    pub technology: Seq<char>,
    pub charge_full: int,
    pub charge_now: int,
    pub charge_full_design: int,
    pub manufacturer: Seq<char>,
}

impl View for PowerSupply {
    type V = PowerSupplyView;

    open spec fn view(&self) -> PowerSupplyView {
        PowerSupplyView {
            name: self.name@,
            supply_type: self.supply_type@,
            status: self.status@,
            present: self.present,
            voltage_now: self.voltage_now as int,
            current_now: self.current_now as int,
            capacity: self.capacity as int,
            capacity_level: self.capacity_level@,
            temp: self.temp as int,
            technology: self.technology@,
            charge_full: self.charge_full as int,
            charge_now: self.charge_now as int,
            charge_full_design: self.charge_full_design as int,
            manufacturer: self.manufacturer@,
        }
    }
}

/// A power supply of which nothing is known: every text empty, every number zero, not
/// present.
pub open spec fn unknown_supply() -> PowerSupplyView {
    PowerSupplyView {
        name: Seq::empty(),
        supply_type: Seq::empty(),
        status: Seq::empty(),
        present: false,
        voltage_now: 0,
        current_now: 0,
        capacity: 0,
        capacity_level: Seq::empty(),
        temp: 0,
        technology: Seq::empty(),
        charge_full: 0,
        charge_now: 0,
        charge_full_design: 0,
        manufacturer: Seq::empty(),
    }
}

/// The key of a line: what stands before the first `=`, or the whole line where there is
/// none, without the white space around it.
pub open spec fn key_of(line: Seq<char>) -> Seq<char> {
    match split_once_of(line, '=') {
        Some((key, _)) => trimmed(key),
        None => trimmed(line),
    }
}

/// The value of a line: what stands after the first `=`, without the white space around
/// it; empty where there is no `=`.
pub open spec fn value_of(line: Seq<char>) -> Seq<char> {
    match split_once_of(line, '=') {
        Some((_, value)) => trimmed(value),
        None => Seq::empty(),
    }
}

/// The number that a value writes, where it lies between `lowest` and `highest`; zero
/// otherwise.
pub open spec fn number_or_zero(value: Seq<char>, signed: bool, lowest: int, highest: int) -> int {
    match integer_within(value, signed, lowest, highest) {
        Some(number) => number,
        None => 0,
    }
}

/// What is known of a supply after one more line of the report.
pub open spec fn with_line(supply: PowerSupplyView, line: Seq<char>) -> PowerSupplyView {
    with_entry(supply, key_of(line), value_of(line))
}

/// What is known of a supply after one more entry of the report: the entry's value in
/// the place that its key names, and nothing new where the key names none.
pub open spec fn with_entry(supply: PowerSupplyView, key: Seq<char>, value: Seq<char>) -> PowerSupplyView {
    if key == "POWER_SUPPLY_NAME"@ {
        PowerSupplyView { name: value, ..supply }
    } else if key == "POWER_SUPPLY_TYPE"@ {
        PowerSupplyView { supply_type: value, ..supply }
    } else if key == "POWER_SUPPLY_STATUS"@ {
        PowerSupplyView { status: value, ..supply }
    } else if key == "POWER_SUPPLY_PRESENT"@ {
        PowerSupplyView { present: value == "1"@, ..supply }
    } else if key == "POWER_SUPPLY_VOLTAGE_NOW"@ {
        PowerSupplyView { voltage_now: number_or_zero(value, false, 0, u32::MAX as int), ..supply }
    } else if key == "POWER_SUPPLY_CURRENT_NOW"@ {
        PowerSupplyView {
            current_now: number_or_zero(value, true, i32::MIN as int, i32::MAX as int),
            ..supply
        }
    } else if key == "POWER_SUPPLY_CAPACITY"@ {
        PowerSupplyView { capacity: number_or_zero(value, false, 0, u8::MAX as int), ..supply }
    } else if key == "POWER_SUPPLY_CAPACITY_LEVEL"@ {
        PowerSupplyView { capacity_level: value, ..supply }
    } else if key == "POWER_SUPPLY_TEMP"@ {
        PowerSupplyView {
            temp: number_or_zero(value, true, i32::MIN as int, i32::MAX as int),
            ..supply
        }
    } else if key == "POWER_SUPPLY_TECHNOLOGY"@ {
        PowerSupplyView { technology: value, ..supply }
    } else if key == "POWER_SUPPLY_CHARGE_FULL"@ {
        PowerSupplyView { charge_full: number_or_zero(value, false, 0, u32::MAX as int), ..supply }
    } else if key == "POWER_SUPPLY_CHARGE_NOW"@ {
        PowerSupplyView { charge_now: number_or_zero(value, false, 0, u32::MAX as int), ..supply }
    } else if key == "POWER_SUPPLY_CHARGE_FULL_DESIGN"@ {
        PowerSupplyView {
            charge_full_design: number_or_zero(value, false, 0, u32::MAX as int),
            ..supply
        }
    } else if key == "POWER_SUPPLY_MANUFACTURER"@ {
        PowerSupplyView { manufacturer: value, ..supply }
    } else {
        supply
    }
}

/// What a report says of the supply: its lines taken in turn, from nothing known.
pub open spec fn info_of(report: Seq<char>) -> PowerSupplyView {
    lines_of(report).fold_left(
        unknown_supply(),
        |supply: PowerSupplyView, line: Seq<char>| with_line(supply, line),
    )
}

/// The failure to set an empty device path.
pub open spec fn set_device_failed() -> PowerSupplyErrorView {
    PowerSupplyErrorView {
        code: PowerSupplyErrorCodes::FailedToOpenFile,
        message: "failed to set device"@,
    }
}

/// The failure to give a device path that was never set.
pub open spec fn device_path_empty() -> PowerSupplyErrorView {
    PowerSupplyErrorView {
        code: PowerSupplyErrorCodes::FailedToOpenFile,
        message: "Device path is empty"@,
    }
}

/// The failure to read the current.
pub open spec fn current_unreadable() -> PowerSupplyErrorView {
    PowerSupplyErrorView {
        code: PowerSupplyErrorCodes::InvalidDataFormat,
        message: "Failed to parse current_now value"@,
    }
}

/// The current that the text of the current file writes, once the white space around it
/// is gone.
pub open spec fn current_of(contents: Seq<char>) -> Option<int> {
    integer_within(trimmed(contents), true, i64::MIN as int, i64::MAX as int)
}

/// What can be asked of a power supply.
pub trait PowerSupplyInfo {
    /// What the report says of the supply.
    fn info(&self, report: &str) -> Result<PowerSupply, PowerSupplyError>;

    /// Sets the path of the report.
    fn set_device(&mut self, device: &str) -> Result<(), PowerSupplyError>;

    /// The path of the report.
    fn get_device(&self) -> Result<&str, PowerSupplyError>;

    /// The current, from the text of the current file.
    fn get_current(&self, contents: &str) -> Result<i64, PowerSupplyError>;
}

/// The battery: the path of its report and the path of its current file.
#[derive(Debug)]
pub struct Battery {
    pub path: String,
    pub currnet_now: String,
}

impl Default for Battery {
    fn default() -> (battery: Self)
        ensures
            battery.path@ == Seq::<char>::empty(),
            battery.currnet_now@ == Seq::<char>::empty(),
    {
        Battery { path: String::new(), currnet_now: String::new() }
    }
}

fn unsigned_or_zero(value: &str) -> (number: u32)
    ensures
        number == number_or_zero(value@, false, 0, u32::MAX as int),
{
    match parse_integer(value, false, 0, 0xffff_ffff) {
        Some(number) => number as u32,
        None => 0,
    }
}

fn signed_or_zero(value: &str) -> (number: i32)
    ensures
        number == number_or_zero(value@, true, i32::MIN as int, i32::MAX as int),
{
    match parse_integer(value, true, -0x8000_0000, 0x7fff_ffff) {
        Some(number) => number as i32,
        None => 0,
    }
}

fn byte_or_zero(value: &str) -> (number: u8)
    ensures
        number == number_or_zero(value@, false, 0, u8::MAX as int),
{
    match parse_integer(value, false, 0, 255) {
        Some(number) => number as u8,
        None => 0,
    }
}

fn take_line(supply: &mut PowerSupply, line: &str)
    ensures
        final(supply)@ == with_line(old(supply)@, line@),
{
    let (key, value) = match split_once(line, '=') {
        Some((key, value)) => (trim(key), trim(value)),
        None => (trim(line), ""),
    };
    assert(key@ == key_of(line@));
    assert(value@ == value_of(line@)) by {
        reveal_strlit("");
        assert(""@ =~= Seq::<char>::empty());
    }
    supply.record(key, value);
}

impl PowerSupply {
    /// A supply of which nothing is known.
    pub fn unknown() -> (supply: Self)
        ensures
            supply@ == unknown_supply(),
    {
        PowerSupply {
            name: String::new(),
            supply_type: String::new(),
            status: String::new(),
            present: false,
            voltage_now: 0,
            current_now: 0,
            capacity: 0,
            capacity_level: String::new(),
            temp: 0,
            technology: String::new(),
            charge_full: 0,
            charge_now: 0,
            charge_full_design: 0,
            manufacturer: String::new(),
        }
    }

    /// Takes one entry of the report: a key and a value, each without white space around
    /// it.
    pub fn record(&mut self, key: &str, value: &str)
        ensures
            final(self)@ == with_entry(old(self)@, key@, value@),
    {
        if key.eq("POWER_SUPPLY_NAME") {
            self.name = String::from_str(value);
        } else if key.eq("POWER_SUPPLY_TYPE") {
            self.supply_type = String::from_str(value);
        } else if key.eq("POWER_SUPPLY_STATUS") {
            self.status = String::from_str(value);
        } else if key.eq("POWER_SUPPLY_PRESENT") {
            self.present = value.eq("1");
        } else if key.eq("POWER_SUPPLY_VOLTAGE_NOW") {
            self.voltage_now = unsigned_or_zero(value);
        } else if key.eq("POWER_SUPPLY_CURRENT_NOW") {
            self.current_now = signed_or_zero(value);
        } else if key.eq("POWER_SUPPLY_CAPACITY") {
            self.capacity = byte_or_zero(value);
        } else if key.eq("POWER_SUPPLY_CAPACITY_LEVEL") {
            self.capacity_level = String::from_str(value);
        } else if key.eq("POWER_SUPPLY_TEMP") {
            self.temp = signed_or_zero(value);
        } else if key.eq("POWER_SUPPLY_TECHNOLOGY") {
            self.technology = String::from_str(value);
        } else if key.eq("POWER_SUPPLY_CHARGE_FULL") {
            self.charge_full = unsigned_or_zero(value);
        } else if key.eq("POWER_SUPPLY_CHARGE_NOW") {
            self.charge_now = unsigned_or_zero(value);
        } else if key.eq("POWER_SUPPLY_CHARGE_FULL_DESIGN") {
            self.charge_full_design = unsigned_or_zero(value);
        } else if key.eq("POWER_SUPPLY_MANUFACTURER") {
            self.manufacturer = String::from_str(value);
        }
    }
}

impl PowerSupplyInfo for Battery {
    /// What the report says of the battery. This never fails.
    fn info(&self, report: &str) -> (outcome: Result<PowerSupply, PowerSupplyError>)
        ensures
            outcome is Ok,
            outcome->Ok_0@ == info_of(report@),
    {
        let mut supply = PowerSupply::unknown();
        let report_lines = lines(report);
        let ghost all = lines_of(report@);
        let ghost step = |supply: PowerSupplyView, line: Seq<char>| with_line(supply, line);
        assert(supply@ == unknown_supply());
        let mut i: usize = 0;
        while i < report_lines.len()
            invariant
                i <= report_lines.len(),
                report_lines.deep_view() == all,
                step == |supply: PowerSupplyView, line: Seq<char>| with_line(supply, line),
                supply@ == all.take(i as int).fold_left(unknown_supply(), step),
            decreases report_lines.len() - i,
        {
            assert(all[i as int] == report_lines[i as int]@);
            assert(all.take(i + 1).drop_last() =~= all.take(i as int));
            assert(all.take(i + 1).last() == all[i as int]);
            take_line(&mut supply, report_lines[i].as_str());
            i += 1;
        }
        assert(all.take(i as int) =~= all);
        Ok(supply)
    }

    /// Sets the path of the report. An empty path is refused and changes nothing.
    fn set_device(&mut self, device: &str) -> (outcome: Result<(), PowerSupplyError>)
        ensures
            final(self).currnet_now == old(self).currnet_now,
            device@.len() > 0 ==> outcome is Ok && final(self).path@ == device@,
            device@.len() == 0 ==> outcome is Err && outcome->Err_0@ == set_device_failed()
                && final(self).path == old(self).path,
    {
        if device.is_empty() {
            return Err(
                PowerSupplyError::new(
                    PowerSupplyErrorCodes::FailedToOpenFile,
                    String::from_str("failed to set device"),
                ),
            );
        }
        self.path = String::from_str(device);
        Ok(())
    }

    /// The path of the report; a path that was never set is a failure.
    fn get_device(&self) -> (outcome: Result<&str, PowerSupplyError>)
        ensures
            self.path@.len() > 0 ==> outcome is Ok && outcome->Ok_0@ == self.path@,
            self.path@.len() == 0 ==> outcome is Err && outcome->Err_0@ == device_path_empty(),
    {
        if self.path.as_str().is_empty() {
            return Err(
                PowerSupplyError::new(
                    PowerSupplyErrorCodes::FailedToOpenFile,
                    String::from_str("Device path is empty"),
                ),
            );
        }
        Ok(self.path.as_str())
    }

    /// The current, from the text of the current file: the number that it writes once the
    /// white space around it is gone.
    fn get_current(&self, contents: &str) -> (outcome: Result<i64, PowerSupplyError>)
        ensures
            match current_of(contents@) {
                Some(current) => outcome is Ok && outcome->Ok_0 == current,
                None => outcome is Err && outcome->Err_0@ == current_unreadable(),
            },
    {
        match parse_integer(trim(contents), true, i64::MIN, i64::MAX) {
            Some(current) => Ok(current),
            None => Err(
                PowerSupplyError::new(
                    PowerSupplyErrorCodes::InvalidDataFormat,
                    String::from_str("Failed to parse current_now value"),
                ),
            ),
        }
    }
}

} // verus!
