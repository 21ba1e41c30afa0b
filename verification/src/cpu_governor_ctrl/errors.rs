//! What a CPU governor or frequency request reports when it fails.

use vstd::prelude::*;
use vstd::string::StringExecFns;

verus! {

/// The reason class of a failure.
#[derive(Debug, Clone, Copy, PartialEq, Eq, Structural)]
pub enum CpuCtrlErrorCodes {
    FailedToSetCpuGovernor,
    FailedToSetCpuGovernorPath,
    FailedToGetCpuGovernor,
    FailedToGetCpuFrequency,
    FailedToSetCpuFrequency,
    FailedToSetCpuFrequencyPath,
    FailedToOpenFile,
    FailedToWriteToFile,
    FailedToReadFile,
    UnknownError,
}

impl CpuCtrlErrorCodes {
    /// The code's name, as it is written in logs and messages.
    pub open spec fn label(self) -> Seq<char> {
        match self {
            CpuCtrlErrorCodes::FailedToSetCpuGovernor => "FailedToSetCpuGovernor"@,
            CpuCtrlErrorCodes::FailedToSetCpuGovernorPath => "FailedToSetCpuGovernorPath"@,
            CpuCtrlErrorCodes::FailedToGetCpuGovernor => "FailedToGetCpuGovernor"@,
            CpuCtrlErrorCodes::FailedToGetCpuFrequency => "FailedToGetCpuFrequency"@,
            CpuCtrlErrorCodes::FailedToSetCpuFrequency => "FailedToSetCpuFrequency"@,
            CpuCtrlErrorCodes::FailedToSetCpuFrequencyPath => "FailedToSetCpuFrequencyPath"@,
            CpuCtrlErrorCodes::FailedToOpenFile => "FailedToOpenFile"@,
            CpuCtrlErrorCodes::FailedToWriteToFile => "FailedToWriteToFile"@,
            CpuCtrlErrorCodes::FailedToReadFile => "FailedToReadFile"@,
            CpuCtrlErrorCodes::UnknownError => "UnknownError"@,
        }
    }

    /// Renders the code as its name.
    pub fn to_string(&self) -> (text: String)
        ensures
            text@ == self.label(),
    {
        match self {
            CpuCtrlErrorCodes::FailedToSetCpuGovernor => String::from_str("FailedToSetCpuGovernor"),
            CpuCtrlErrorCodes::FailedToSetCpuGovernorPath => String::from_str("FailedToSetCpuGovernorPath"),
            CpuCtrlErrorCodes::FailedToGetCpuGovernor => String::from_str("FailedToGetCpuGovernor"),
            CpuCtrlErrorCodes::FailedToGetCpuFrequency => String::from_str("FailedToGetCpuFrequency"),
            CpuCtrlErrorCodes::FailedToSetCpuFrequency => String::from_str("FailedToSetCpuFrequency"),
            CpuCtrlErrorCodes::FailedToSetCpuFrequencyPath => String::from_str("FailedToSetCpuFrequencyPath"),
            CpuCtrlErrorCodes::FailedToOpenFile => String::from_str("FailedToOpenFile"),
            CpuCtrlErrorCodes::FailedToWriteToFile => String::from_str("FailedToWriteToFile"),
            CpuCtrlErrorCodes::FailedToReadFile => String::from_str("FailedToReadFile"),
            CpuCtrlErrorCodes::UnknownError => String::from_str("UnknownError"),
        }
    }
}

/// A failure: its reason class and a message that carries the underlying cause.
#[derive(Debug)]
pub struct CpuCtrlError {
    pub code: CpuCtrlErrorCodes,
    pub message: String,
}

/// A failure as plain values.
pub struct CpuCtrlErrorView {
    pub code: CpuCtrlErrorCodes,
    pub message: Seq<char>,
}

impl View for CpuCtrlError {
    type V = CpuCtrlErrorView;

    open spec fn view(&self) -> CpuCtrlErrorView {
        CpuCtrlErrorView { code: self.code, message: self.message@ }
    }
}

impl CpuCtrlErrorView {
    /// The text of the failure: `(code: <name>, message: <message>)`.
    pub open spec fn text(self) -> Seq<char> {
        "(code: "@ + self.code.label() + ", message: "@ + self.message + ")"@
    }
}

impl CpuCtrlError {
    pub fn new(code: CpuCtrlErrorCodes, message: String) -> (error: Self)
        ensures
            error.code == code,
            error.message == message,
    {
        CpuCtrlError { code, message }
    }

    /// A failure whose message is `prefix` followed by `cause`.
    pub fn because(code: CpuCtrlErrorCodes, prefix: &str, cause: &str) -> (error: Self)
        ensures
            error@ == (CpuCtrlErrorView { code, message: prefix@ + cause@ }),
    {
        CpuCtrlError { code, message: String::from_str(prefix).concat(cause) }
    }

    /// Renders the failure as `(code: <name>, message: <message>)`.
    pub fn to_string(&self) -> (text: String)
        ensures
            text@ == self@.text(),
    {
        let text = String::from_str("(code: ");
        let text = text.concat(self.code.to_string().as_str());
        let text = text.concat(", message: ");
        let text = text.concat(self.message.as_str());
        text.concat(")")
    }
}

} // verus!
