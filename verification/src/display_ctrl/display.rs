//! The display's backlight, set and read through its brightness file.

use vstd::prelude::*;
use vstd::string::StringExecFns;
use crate::display_ctrl::errors::{DisplayError, DisplayErrorCodes, DisplayErrorView};
use crate::file::{FileWrite, FileWriteView, ReadError, WriteError};
use crate::text::{decimal, integer_within, parse_integer, to_decimal, trim, trimmed};

verus! {

/// The brightness file of the display.
#[derive(Debug)]
pub struct DisplayCtrl {
    pub path: String,
}

/// The brightest setting that is accepted.
pub open spec fn brightest() -> u8 {
    244
}

/// The write that sets a brightness: the number in decimal to the brightness file; and
/// no write above the brightest setting.
pub open spec fn brightness_write_of(path: Seq<char>, brightness: u8) -> Result<
    FileWriteView,
    DisplayErrorView,
> {
    if brightness > brightest() {
        Err(
            DisplayErrorView {
                code: DisplayErrorCodes::InvalidBrightnessValueError,
                message: "invalid brightness value"@,
            },
        )
    } else {
        Ok(FileWriteView { path, contents: decimal(brightness as nat) })
    }
}

/// The outcome of setting the brightness, from the outcome of the write.
pub open spec fn set_brightness_result(written: Result<(), WriteError>) -> Result<
    (),
    DisplayErrorView,
> {
    match written {
        Ok(_) => Ok(()),
        Err(WriteError::Create(_)) => Err(
            DisplayErrorView {
                code: DisplayErrorCodes::InvalidBrightnessPathError,
                message: "failed to open brightness file"@,
            },
        ),
        Err(WriteError::Write(cause)) => Err(
            DisplayErrorView {
                code: DisplayErrorCodes::InvalidBrightnessValueError,
                message: "unable to write brightness value: "@ + cause@,
            },
        ),
    }
}

/// The brightness that the first line of the brightness file holds: the number that the
/// line writes once its surrounding white space is gone, where that is one byte's worth.
pub open spec fn brightness_of(line: Seq<char>) -> Option<int> {
    integer_within(trimmed(line), false, 0, 255)
}

/// The outcome of reading the brightness, from the outcome of reading the first line of
/// the brightness file. A line that could not be read gives its cause as it is.
pub open spec fn get_brightness_result(read: Result<String, ReadError>) -> Result<
    int,
    DisplayErrorView,
> {
    match read {
        Ok(line) => match brightness_of(line@) {
            Some(value) => Ok(value),
            None => Err(
                DisplayErrorView {
                    code: DisplayErrorCodes::InvalidBrightnessValueError,
                    message: "Failed to parse brightness value"@,
                },
            ),
        },
        Err(ReadError::Open(_)) => Err(
            DisplayErrorView {
                code: DisplayErrorCodes::InvalidBrightnessPathError,
                message: "Failed to open brightness file"@,
            },
        ),
        Err(ReadError::Empty) => Err(
            DisplayErrorView {
                code: DisplayErrorCodes::InvalidBrightnessValueError,
                message: "Failed to read brightness value"@,
            },
        ),
        Err(ReadError::Read(cause)) => Err(
            DisplayErrorView {
                code: DisplayErrorCodes::InvalidBrightnessValueError,
                message: cause@,
            },
        ),
    }
}

impl DisplayCtrl {
    pub fn new(path: &str) -> (ctrl: Self)
        ensures
            ctrl.path@ == path@,
    {
        DisplayCtrl { path: String::from_str(path) }
    }

    /// The write that sets a brightness, or the refusal of a brightness above the
    /// brightest setting.
    pub fn brightness_write(&self, brightness: u8) -> (write: Result<FileWrite, DisplayError>)
        ensures
            match write {
                Ok(write) => brightness_write_of(self.path@, brightness) == Ok::<
                    _,
                    DisplayErrorView,
                >(write@),
                Err(error) => brightness_write_of(self.path@, brightness) == Err::<
                    FileWriteView,
                    _,
                >(error@),
            },
    {
        if brightness > 244 {
            Err(
                DisplayError::new(
                    DisplayErrorCodes::InvalidBrightnessValueError,
                    String::from_str("invalid brightness value"),
                ),
            )
        } else {
            Ok(FileWrite { path: self.path.clone(), contents: to_decimal(brightness as u64) })
        }
    }

    /// The outcome of setting the brightness, from the outcome of its write.
    pub fn set_display_brightness(&self, written: Result<(), WriteError>) -> (outcome: Result<
        (),
        DisplayError,
    >)
        ensures
            match outcome {
                Ok(()) => set_brightness_result(written) == Ok::<(), DisplayErrorView>(()),
                Err(error) => set_brightness_result(written) == Err::<(), _>(error@),
            },
    {
        match written {
            Ok(()) => Ok(()),
            Err(WriteError::Create(_)) => Err(
                DisplayError::new(
                    DisplayErrorCodes::InvalidBrightnessPathError,
                    String::from_str("failed to open brightness file"),
                ),
            ),
            Err(WriteError::Write(cause)) => Err(
                DisplayError::because(
                    DisplayErrorCodes::InvalidBrightnessValueError,
                    "unable to write brightness value: ",
                    cause.as_str(),
                ),
            ),
        }
    }

    /// The brightness, from the outcome of reading the first line of the brightness file.
    pub fn get_display_brightness(&self, read: Result<String, ReadError>) -> (outcome: Result<
        u8,
        DisplayError,
    >)
        ensures
            match outcome {
                Ok(value) => get_brightness_result(read) == Ok::<_, DisplayErrorView>(
                    value as int,
                ),
                Err(error) => get_brightness_result(read) == Err::<int, _>(error@),
            },
    {
        match read {
            Ok(line) => match parse_integer(trim(line.as_str()), false, 0, 255) {
                Some(value) => Ok(value as u8),
                None => Err(
                    DisplayError::new(
                        DisplayErrorCodes::InvalidBrightnessValueError,
                        String::from_str("Failed to parse brightness value"),
                    ),
                ),
            },
            Err(ReadError::Open(_)) => Err(
                DisplayError::new(
                    DisplayErrorCodes::InvalidBrightnessPathError,
                    String::from_str("Failed to open brightness file"),
                ),
            ),
            Err(ReadError::Empty) => Err(
                DisplayError::new(
                    DisplayErrorCodes::InvalidBrightnessValueError,
                    String::from_str("Failed to read brightness value"),
                ),
            ),
            Err(ReadError::Read(cause)) => Err(
                DisplayError::new(DisplayErrorCodes::InvalidBrightnessValueError, cause),
            ),
        }
    }
}

} // verus!
