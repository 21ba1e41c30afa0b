//! What a metrics query reports when it fails.

use vstd::prelude::*;
use vstd::string::StringExecFns;

verus! {

/// The reason class of a failure.
#[derive(Debug, Clone, Copy, PartialEq, Eq, Structural)]
pub enum DeviceMetricsErrorCodes {
    UnknownError,
    FailedToGetCpuUsage,
    FailedToGetMemoryUsage,
    FailedToGetDiskUsage,
}

impl DeviceMetricsErrorCodes {
    /// The code's name, as it is written in logs and messages.
    pub open spec fn label(self) -> Seq<char> {
        match self {
            DeviceMetricsErrorCodes::UnknownError => "UnknownError"@,
            DeviceMetricsErrorCodes::FailedToGetCpuUsage => "FailedToGetCpuUsage"@,
            DeviceMetricsErrorCodes::FailedToGetMemoryUsage => "FailedToGetMemoryUsage"@,
            DeviceMetricsErrorCodes::FailedToGetDiskUsage => "FailedToGetDiskUsage"@,
        }
    }

    /// Renders the code as its name.
    pub fn to_string(&self) -> (text: String)
        ensures
            text@ == self.label(),
    {
        match self {
            DeviceMetricsErrorCodes::UnknownError => String::from_str("UnknownError"),
            DeviceMetricsErrorCodes::FailedToGetCpuUsage => String::from_str("FailedToGetCpuUsage"),
            DeviceMetricsErrorCodes::FailedToGetMemoryUsage => String::from_str("FailedToGetMemoryUsage"),
            DeviceMetricsErrorCodes::FailedToGetDiskUsage => String::from_str("FailedToGetDiskUsage"),
        }
    }
}

/// A failure: its reason class and a message that carries the underlying cause.
#[derive(Debug)]
pub struct DeviceMetricsError {
    pub code: DeviceMetricsErrorCodes,
    pub message: String,
}

/// A failure as plain values.
pub struct DeviceMetricsErrorView {
    pub code: DeviceMetricsErrorCodes,
    pub message: Seq<char>,
}

impl View for DeviceMetricsError {
    type V = DeviceMetricsErrorView;

    open spec fn view(&self) -> DeviceMetricsErrorView {
        DeviceMetricsErrorView { code: self.code, message: self.message@ }
    }
}

impl DeviceMetricsErrorView {
    /// The text of the failure: `(code: <name>, message: <message>)`.
    pub open spec fn text(self) -> Seq<char> {
        "(code: "@ + self.code.label() + ", message: "@ + self.message + ")"@
    }
}

impl DeviceMetricsError {
    pub fn new(code: DeviceMetricsErrorCodes, message: String) -> (error: Self)
        ensures
            error.code == code,
            error.message == message,
    {
        DeviceMetricsError { code, message }
    }

    /// A failure whose message is `prefix` followed by `cause`.
    pub fn because(code: DeviceMetricsErrorCodes, prefix: &str, cause: &str) -> (error: Self)
        ensures
            error@ == (DeviceMetricsErrorView { code, message: prefix@ + cause@ }),
    {
        DeviceMetricsError { code, message: String::from_str(prefix).concat(cause) }
    }

    /// Renders the failure as `(code: <name>, message: <message>)`.
    pub fn to_string(&self) -> (text: String)
        ensures
            text@ == self@.text(),
    {
        let text = String::from_str("(code: ");
        let text = text.concat(self.code.to_string().as_str());
        let text = text.concat(", message: ");
        let text = text.concat(self.message.as_str());
        text.concat(")")
    }
}

} // verus!
