//! The three-colour status LED: each colour is lit or cleared by writing its brightness
//! file.

use vstd::prelude::*;
use vstd::string::StringExecFns;
use crate::file::{FileWrite, FileWriteView};
use crate::led_ctrl::errors::{LedCtrlError, LedCtrlErrorCodes, LedCtrlErrorView};

verus! {

#[derive(Debug, Clone, Copy, PartialEq, Eq, Structural)]
pub enum LedColor {
    Red,
    Green,
    Blue,
}

impl LedColor {
    /// The colour that a request's colour number stands for.
    pub open spec fn of_code(code: i32) -> Option<LedColor> {
        if code == 0 {
            Some(LedColor::Red)
        } else if code == 1 {
            Some(LedColor::Green)
        } else if code == 2 {
            Some(LedColor::Blue)
        } else {
            None
        }
    }

    /// Reads a request's colour number: 0 is red, 1 green, 2 blue, and no other number is
    /// a colour.
    pub fn from_code(code: i32) -> (color: Option<LedColor>)
        ensures
            color == LedColor::of_code(code),
    {
        match code {
            0 => Some(LedColor::Red),
            1 => Some(LedColor::Green),
            2 => Some(LedColor::Blue),
            _ => None,
        }
    }
}

/// The brightness files of the three colours.
#[derive(Debug)]
pub struct LedCtrl {
    red_led_path: String,
    green_led_path: String,
    blue_led_path: String,
}

/// The controller as plain values.
pub struct LedCtrlView {
    pub red_led_path: Seq<char>,
    pub green_led_path: Seq<char>,
    pub blue_led_path: Seq<char>,
}

impl LedCtrlView {
    /// The brightness file of a colour.
    pub open spec fn path(self, color: LedColor) -> Seq<char> {
        match color {
            LedColor::Red => self.red_led_path,
            LedColor::Green => self.green_led_path,
            LedColor::Blue => self.blue_led_path,
        }
    }
}

impl View for LedCtrl {
    type V = LedCtrlView;

    closed spec fn view(&self) -> LedCtrlView {
        LedCtrlView {
            red_led_path: self.red_led_path@,
            green_led_path: self.green_led_path@,
            blue_led_path: self.blue_led_path@,
        }
    }
}

/// What is written to light a colour, and what to clear it.
pub open spec fn brightness_text(lit: bool) -> Seq<char> {
    if lit {
        "1"@
    } else {
        "0"@
    }
}

/// The outcome of lighting a colour, from the outcome of the write.
pub open spec fn set_led_result(written: Result<(), Seq<char>>) -> Result<(), LedCtrlErrorView> {
    match written {
        Ok(_) => Ok(()),
        Err(cause) => Err(
            LedCtrlErrorView {
                code: LedCtrlErrorCodes::InvalidLedPathValueError,
                message: "unable to write brightness value: "@ + cause,
            },
        ),
    }
}

/// The outcome of clearing a colour, from the outcome of the write.
pub open spec fn clear_led_result(written: Result<(), Seq<char>>) -> Result<(), LedCtrlErrorView> {
    match written {
        Ok(_) => Ok(()),
        Err(cause) => Err(
            LedCtrlErrorView {
                code: LedCtrlErrorCodes::InvalidLedPathValueError,
                message: "unable to read brightness value: "@ + cause,
            },
        ),
    }
}

impl LedCtrl {
    pub fn new(red_led_path: &str, green_led_path: &str, blue_led_path: &str) -> (ctrl: Self)
        ensures
            ctrl@ == (LedCtrlView {
                red_led_path: red_led_path@,
                green_led_path: green_led_path@,
                blue_led_path: blue_led_path@,
            }),
    {
        LedCtrl {
            red_led_path: String::from_str(red_led_path),
            green_led_path: String::from_str(green_led_path),
            blue_led_path: String::from_str(blue_led_path),
        }
    }

    /// The write that lights (`lit`) or clears a colour: `1` or `0` to the colour's
    /// brightness file.
    pub fn write_brightness(&self, color: LedColor, lit: bool) -> (write: FileWrite)
        ensures
            write@ == (FileWriteView { path: self@.path(color), contents: brightness_text(lit) }),
    {
        let path = match color {
            LedColor::Red => self.red_led_path.clone(),
            LedColor::Green => self.green_led_path.clone(),
            LedColor::Blue => self.blue_led_path.clone(),
        };
        let contents = if lit {
            String::from_str("1")
        } else {
            String::from_str("0")
        };
        FileWrite { path, contents }
    }

    /// The outcome of lighting a colour, from the outcome of its write.
    pub fn set_led(&self, written: Result<(), String>) -> (outcome: Result<(), LedCtrlError>)
        ensures
            match outcome {
                Ok(()) => written is Ok,
                Err(error) => written is Err && set_led_result(Err(written->Err_0@)) == Err::<
                    (),
                    _,
                >(error@),
            },
    {
        match written {
            Ok(()) => Ok(()),
            Err(cause) => Err(
                LedCtrlError::because(
                    LedCtrlErrorCodes::InvalidLedPathValueError,
                    "unable to write brightness value: ",
                    cause.as_str(),
                ),
            ),
        }
    }

    /// The outcome of clearing a colour, from the outcome of its write.
    pub fn clear_led(&self, written: Result<(), String>) -> (outcome: Result<(), LedCtrlError>)
        ensures
            match outcome {
                Ok(()) => written is Ok,
                Err(error) => written is Err && clear_led_result(Err(written->Err_0@)) == Err::<
                    (),
                    _,
                >(error@),
            },
    {
        match written {
            Ok(()) => Ok(()),
            Err(cause) => Err(
                LedCtrlError::because(
                    LedCtrlErrorCodes::InvalidLedPathValueError,
                    "unable to read brightness value: ",
                    cause.as_str(),
                ),
            ),
        }
    }
}

} // verus!
