//! What a motion-sensor reading reports when it fails.

use vstd::prelude::*;
use vstd::string::StringExecFns;

verus! {

/// The reason class of a failure.
#[derive(Debug, Clone, Copy, PartialEq, Eq, Structural)]
pub enum MotionSensorErrorCodes {
    NoMotionDetected,
    UnableToReadMotionSensor,
    Unknown,
    UnableToOpenFile,
    UnableToParseValue,
}

impl MotionSensorErrorCodes {
    /// The code's name, as it is written in logs and messages.
    pub open spec fn label(self) -> Seq<char> {
        match self {
            MotionSensorErrorCodes::NoMotionDetected => "NoMotionDetected"@,
            MotionSensorErrorCodes::UnableToReadMotionSensor => "UnableToReadMotionSensor"@,
            MotionSensorErrorCodes::Unknown => "Unknown"@,
            MotionSensorErrorCodes::UnableToOpenFile => "UnableToOpenFile"@,
            MotionSensorErrorCodes::UnableToParseValue => "UnableToParseValue"@,
        }
    }

    /// Renders the code as its name.
    pub fn to_string(&self) -> (text: String)
        ensures
            text@ == self.label(),
    {
        match self {
            MotionSensorErrorCodes::NoMotionDetected => String::from_str("NoMotionDetected"),
            MotionSensorErrorCodes::UnableToReadMotionSensor => String::from_str("UnableToReadMotionSensor"),
            MotionSensorErrorCodes::Unknown => String::from_str("Unknown"),
            MotionSensorErrorCodes::UnableToOpenFile => String::from_str("UnableToOpenFile"),
            MotionSensorErrorCodes::UnableToParseValue => String::from_str("UnableToParseValue"),
        }
    }
}

/// A failure: its reason class and a message that carries the underlying cause.
#[derive(Debug)]
pub struct MotionSensorError {
    pub code: MotionSensorErrorCodes,
    pub message: String,
}

/// A failure as plain values.
pub struct MotionSensorErrorView {
    pub code: MotionSensorErrorCodes,
    pub message: Seq<char>,
}

impl View for MotionSensorError {
    type V = MotionSensorErrorView;

    open spec fn view(&self) -> MotionSensorErrorView {
        MotionSensorErrorView { code: self.code, message: self.message@ }
    }
}

impl MotionSensorErrorView {
    /// The text of the failure: `(code: <name>, message: <message>)`.
    pub open spec fn text(self) -> Seq<char> {
        "(code: "@ + self.code.label() + ", message: "@ + self.message + ")"@
    }
}

impl MotionSensorError {
    pub fn new(code: MotionSensorErrorCodes, message: String) -> (error: Self)
        ensures
            error.code == code,
            error.message == message,
    {
        MotionSensorError { code, message }
    }

    /// A failure whose message is `prefix` followed by `cause`.
    pub fn because(code: MotionSensorErrorCodes, prefix: &str, cause: &str) -> (error: Self)
        ensures
            error@ == (MotionSensorErrorView { code, message: prefix@ + cause@ }),
    {
        MotionSensorError { code, message: String::from_str(prefix).concat(cause) }
    }

    /// Renders the failure as `(code: <name>, message: <message>)`.
    pub fn to_string(&self) -> (text: String)
        ensures
            text@ == self@.text(),
    {
        let text = String::from_str("(code: ");
        let text = text.concat(self.code.to_string().as_str());
        let text = text.concat(", message: ");
        let text = text.concat(self.message.as_str());
        text.concat(")")
    }
}

} // verus!
