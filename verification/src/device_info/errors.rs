//! What a device-information query reports when it fails.

use vstd::prelude::*;
use vstd::string::StringExecFns;

verus! {

/// The reason class of a failure.
#[derive(Debug, Clone, Copy, PartialEq, Eq, Structural)]
pub enum DeviceInfoErrorCodes {
    UnknownError,
    FailedToGetCpuUsage,
    FailedToGetMemoryUsage,
    FailedToGetDiskUsage,
}

impl DeviceInfoErrorCodes {
    /// The code's name, as it is written in logs and messages.
    pub open spec fn label(self) -> Seq<char> {
        match self {
            DeviceInfoErrorCodes::UnknownError => "UnknownError"@,
            DeviceInfoErrorCodes::FailedToGetCpuUsage => "FailedToGetCpuUsage"@,
            DeviceInfoErrorCodes::FailedToGetMemoryUsage => "FailedToGetMemoryUsage"@,
            DeviceInfoErrorCodes::FailedToGetDiskUsage => "FailedToGetDiskUsage"@,
        }
    }

    /// Renders the code as its name.
    pub fn to_string(&self) -> (text: String)
        ensures
            text@ == self.label(),
    {
        match self {
            DeviceInfoErrorCodes::UnknownError => String::from_str("UnknownError"),
            DeviceInfoErrorCodes::FailedToGetCpuUsage => String::from_str("FailedToGetCpuUsage"),
            DeviceInfoErrorCodes::FailedToGetMemoryUsage => String::from_str("FailedToGetMemoryUsage"),
            DeviceInfoErrorCodes::FailedToGetDiskUsage => String::from_str("FailedToGetDiskUsage"),
        }
    }
}

/// A failure: its reason class and a message that carries the underlying cause.
#[derive(Debug)]
pub struct DeviceInfoError {
    pub code: DeviceInfoErrorCodes,
    pub message: String,
}

/// A failure as plain values.
pub struct DeviceInfoErrorView {
    pub code: DeviceInfoErrorCodes,
    pub message: Seq<char>,
}

impl View for DeviceInfoError {
    type V = DeviceInfoErrorView;

    open spec fn view(&self) -> DeviceInfoErrorView {
        DeviceInfoErrorView { code: self.code, message: self.message@ }
    }
}

impl DeviceInfoErrorView {
    /// The text of the failure: `(code: <name>, message: <message>)`.
    pub open spec fn text(self) -> Seq<char> {
        "(code: "@ + self.code.label() + ", message: "@ + self.message + ")"@
    }
}

impl DeviceInfoError {
    pub fn new(code: DeviceInfoErrorCodes, message: String) -> (error: Self)
        ensures
            error.code == code,
            error.message == message,
    {
        DeviceInfoError { code, message }
    }

    /// A failure whose message is `prefix` followed by `cause`.
    pub fn because(code: DeviceInfoErrorCodes, prefix: &str, cause: &str) -> (error: Self)
        ensures
            error@ == (DeviceInfoErrorView { code, message: prefix@ + cause@ }),
    {
        DeviceInfoError { code, message: String::from_str(prefix).concat(cause) }
    }

    /// Renders the failure as `(code: <name>, message: <message>)`.
    pub fn to_string(&self) -> (text: String)
        ensures
            text@ == self@.text(),
    {
        let text = String::from_str("(code: ");
        let text = text.concat(self.code.to_string().as_str());
        let text = text.concat(", message: ");
        let text = text.concat(self.message.as_str());
        text.concat(")")
    }
}

} // verus!
