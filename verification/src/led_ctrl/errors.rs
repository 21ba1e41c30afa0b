//! What an LED request reports when it fails.

use vstd::prelude::*;
use vstd::string::StringExecFns;

verus! {

/// The reason class of a failure.
#[derive(Debug, Clone, Copy, PartialEq, Eq, Structural)]
pub enum LedCtrlErrorCodes {
    InvalidLedPathValueError,
}

impl LedCtrlErrorCodes {
    /// The code's name, as it is written in logs and messages.
    pub open spec fn label(self) -> Seq<char> {
        match self {
            LedCtrlErrorCodes::InvalidLedPathValueError => "InvalidLedPathValueError"@,
        }
    }

    /// Renders the code as its name.
    pub fn to_string(&self) -> (text: String)
        ensures
            text@ == self.label(),
    {
        match self {
            LedCtrlErrorCodes::InvalidLedPathValueError => String::from_str("InvalidLedPathValueError"),
        }
    }
}

/// A failure: its reason class and a message that carries the underlying cause.
#[derive(Debug)]
pub struct LedCtrlError {
    pub code: LedCtrlErrorCodes,
    pub message: String,
}

/// A failure as plain values.
pub struct LedCtrlErrorView {
    pub code: LedCtrlErrorCodes,
    pub message: Seq<char>,
}

impl View for LedCtrlError {
    type V = LedCtrlErrorView;

    open spec fn view(&self) -> LedCtrlErrorView {
        LedCtrlErrorView { code: self.code, message: self.message@ }
    }
}

impl LedCtrlErrorView {
    /// The text of the failure: `(code: <name>, message: <message>)`.
    pub open spec fn text(self) -> Seq<char> {
        "(code: "@ + self.code.label() + ", message: "@ + self.message + ")"@
    }
}

impl LedCtrlError {
    pub fn new(code: LedCtrlErrorCodes, message: String) -> (error: Self)
        ensures
            error.code == code,
            error.message == message,
    {
        LedCtrlError { code, message }
    }

    /// A failure whose message is `prefix` followed by `cause`.
    pub fn because(code: LedCtrlErrorCodes, prefix: &str, cause: &str) -> (error: Self)
        ensures
            error@ == (LedCtrlErrorView { code, message: prefix@ + cause@ }),
    {
        LedCtrlError { code, message: String::from_str(prefix).concat(cause) }
    }

    /// Renders the failure as `(code: <name>, message: <message>)`.
    pub fn to_string(&self) -> (text: String)
        ensures
            text@ == self@.text(),
    {
        let text = String::from_str("(code: ");
        let text = text.concat(self.code.to_string().as_str());
        let text = text.concat(", message: ");
        let text = text.concat(self.message.as_str());
        text.concat(")")
    }
}

} // verus!
