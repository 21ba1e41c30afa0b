//! What a power-supply query reports when it fails.

use vstd::prelude::*;
use vstd::string::StringExecFns;

verus! {

/// The reason class of a failure.
#[derive(Debug, Clone, Copy, PartialEq, Eq, Structural)]
pub enum PowerSupplyErrorCodes {
    FailedToOpenFile,
    InvalidDataFormat,
}

impl PowerSupplyErrorCodes {
    /// The code's name, as it is written in logs and messages.
    pub open spec fn label(self) -> Seq<char> {
        match self {
            PowerSupplyErrorCodes::FailedToOpenFile => "FailedToOpenFile"@,
            PowerSupplyErrorCodes::InvalidDataFormat => "InvalidDataFormat"@,
        }
    }

    /// Renders the code as its name.
    pub fn to_string(&self) -> (text: String)
        ensures
            text@ == self.label(),
    {
        match self {
            PowerSupplyErrorCodes::FailedToOpenFile => String::from_str("FailedToOpenFile"),
            PowerSupplyErrorCodes::InvalidDataFormat => String::from_str("InvalidDataFormat"),
        }
    }
}

/// A failure: its reason class and a message that carries the underlying cause.
#[derive(Debug)]
pub struct PowerSupplyError {
    pub code: PowerSupplyErrorCodes,
    pub message: String,
}

/// A failure as plain values.
pub struct PowerSupplyErrorView {
    pub code: PowerSupplyErrorCodes,
    pub message: Seq<char>,
}

impl View for PowerSupplyError {
    type V = PowerSupplyErrorView;

    open spec fn view(&self) -> PowerSupplyErrorView {
        PowerSupplyErrorView { code: self.code, message: self.message@ }
    }
}

impl PowerSupplyErrorView {
    /// The text of the failure: `(code: <name>, message: <message>)`.
    pub open spec fn text(self) -> Seq<char> {
        "(code: "@ + self.code.label() + ", message: "@ + self.message + ")"@
    }
}

impl PowerSupplyError {
    pub fn new(code: PowerSupplyErrorCodes, message: String) -> (error: Self)
        ensures
            error.code == code,
            error.message == message,
    {
        PowerSupplyError { code, message }
    }

    /// A failure whose message is `prefix` followed by `cause`.
    pub fn because(code: PowerSupplyErrorCodes, prefix: &str, cause: &str) -> (error: Self)
        ensures
            error@ == (PowerSupplyErrorView { code, message: prefix@ + cause@ }),
    {
        PowerSupplyError { code, message: String::from_str(prefix).concat(cause) }
    }

    /// Renders the failure as `(code: <name>, message: <message>)`.
    pub fn to_string(&self) -> (text: String)
        ensures
            text@ == self@.text(),
    {
        let text = String::from_str("(code: ");
        let text = text.concat(self.code.to_string().as_str());
        let text = text.concat(", message: ");
        let text = text.concat(self.message.as_str());
        text.concat(")")
    }
}

} // verus!
