//! What a display-brightness request reports when it fails.

use vstd::prelude::*;
use vstd::string::StringExecFns;

verus! {

/// The reason class of a failure.
#[derive(Debug, Clone, Copy, PartialEq, Eq, Structural)]
pub enum DisplayErrorCodes {
    InvalidBrightnessValueError,
    InvalidBrightnessPathError,
}

impl DisplayErrorCodes {
    /// The code's name, as it is written in logs and messages.
    pub open spec fn label(self) -> Seq<char> {
        match self {
            DisplayErrorCodes::InvalidBrightnessValueError => "InvalidBrightnessValueError"@,
            DisplayErrorCodes::InvalidBrightnessPathError => "InvalidBrightnessPathError"@,
        }
    }

    /// Renders the code as its name.
    pub fn to_string(&self) -> (text: String)
        ensures
            text@ == self.label(),
    {
        match self {
            DisplayErrorCodes::InvalidBrightnessValueError => String::from_str("InvalidBrightnessValueError"),
            DisplayErrorCodes::InvalidBrightnessPathError => String::from_str("InvalidBrightnessPathError"),
        }
    }
}

/// A failure: its reason class and a message that carries the underlying cause.
#[derive(Debug)]
pub struct DisplayError {
    pub code: DisplayErrorCodes,
    pub message: String,
}

/// A failure as plain values.
pub struct DisplayErrorView {
    pub code: DisplayErrorCodes,
    pub message: Seq<char>,
}

impl View for DisplayError {
    type V = DisplayErrorView;

    open spec fn view(&self) -> DisplayErrorView {
        DisplayErrorView { code: self.code, message: self.message@ }
    }
}

impl DisplayErrorView {
    /// The text of the failure: `(code: <name>, message: <message>)`.
    pub open spec fn text(self) -> Seq<char> {
        "(code: "@ + self.code.label() + ", message: "@ + self.message + ")"@
    }
}

impl DisplayError {
    pub fn new(code: DisplayErrorCodes, message: String) -> (error: Self)
        ensures
            error.code == code,
            error.message == message,
    {
        DisplayError { code, message }
    }

    /// A failure whose message is `prefix` followed by `cause`.
    pub fn because(code: DisplayErrorCodes, prefix: &str, cause: &str) -> (error: Self)
        ensures
            error@ == (DisplayErrorView { code, message: prefix@ + cause@ }),
    {
        DisplayError { code, message: String::from_str(prefix).concat(cause) }
    }

    /// Renders the failure as `(code: <name>, message: <message>)`.
    pub fn to_string(&self) -> (text: String)
        ensures
            text@ == self@.text(),
    {
        let text = String::from_str("(code: ");
        let text = text.concat(self.code.to_string().as_str());
        let text = text.concat(", message: ");
        let text = text.concat(self.message.as_str());
        text.concat(")")
    }
}

} // verus!
