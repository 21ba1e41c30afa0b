//! What a wireless operation reports when it fails.

use vstd::prelude::*;
use vstd::string::StringExecFns;

verus! {

/// The reason class of a failed wireless operation.
#[derive(Debug, Clone, Copy, PartialEq, Eq, Structural)]
pub enum WifiErrorCodes {
    NoWifiDeviceFound,
    UnableToTurnOnWifi,
    UnableToTurnOffWifi,
    UnableToConnectToWifiDevice,
    UnableToDisconnectFromWifiDevice,
    UnableToGetWifiDeviceStatus,
    UnableToRemoveWifiDevice,
    Unknown,
}

impl Default for WifiErrorCodes {
    fn default() -> (code: Self)
        ensures
            code == WifiErrorCodes::NoWifiDeviceFound,
    {
        WifiErrorCodes::NoWifiDeviceFound
    }
}

impl WifiErrorCodes {
    /// The code's name, as it is written in logs and messages.
    pub open spec fn label(self) -> Seq<char> {
        match self {
            WifiErrorCodes::NoWifiDeviceFound => "NoWifiDeviceFound"@,
            WifiErrorCodes::UnableToTurnOnWifi => "UnableToTurnOnWifi"@,
            WifiErrorCodes::UnableToTurnOffWifi => "UnableToTurnOffWifi"@,
            WifiErrorCodes::UnableToConnectToWifiDevice => "UnableToConnectToWifiDevice"@,
            WifiErrorCodes::UnableToDisconnectFromWifiDevice => "UnableToDisconnectFromWifiDevice"@,
            WifiErrorCodes::UnableToGetWifiDeviceStatus => "UnableToGetWifiDeviceStatus"@,
            WifiErrorCodes::UnableToRemoveWifiDevice => "UnableToRemoveWifiDevice"@,
            WifiErrorCodes::Unknown => "Unknown"@,
        }
    }

    /// Renders the code as its name.
    pub fn to_string(&self) -> (text: String)
        ensures
            text@ == self.label(),
    {
        match self {
            WifiErrorCodes::NoWifiDeviceFound => String::from_str("NoWifiDeviceFound"),
            WifiErrorCodes::UnableToTurnOnWifi => String::from_str("UnableToTurnOnWifi"),
            WifiErrorCodes::UnableToTurnOffWifi => String::from_str("UnableToTurnOffWifi"),
            WifiErrorCodes::UnableToConnectToWifiDevice => String::from_str(
                "UnableToConnectToWifiDevice",
            ),
            WifiErrorCodes::UnableToDisconnectFromWifiDevice => String::from_str(
                "UnableToDisconnectFromWifiDevice",
            ),
            WifiErrorCodes::UnableToGetWifiDeviceStatus => String::from_str(
                "UnableToGetWifiDeviceStatus",
            ),
            WifiErrorCodes::UnableToRemoveWifiDevice => String::from_str(
                "UnableToRemoveWifiDevice",
            ),
            WifiErrorCodes::Unknown => String::from_str("Unknown"),
        }
    }
}

/// A failed wireless operation: its reason class and a message that carries the
/// underlying cause.
#[derive(Debug)]
pub struct WifiError {
    pub code: WifiErrorCodes,
    pub message: String,
}

/// An error as plain values.
pub struct WifiErrorView {
    pub code: WifiErrorCodes,
    pub message: Seq<char>,
}

impl View for WifiError {
    type V = WifiErrorView;

    open spec fn view(&self) -> WifiErrorView {
        WifiErrorView { code: self.code, message: self.message@ }
    }
}

/// The text of an error with the given code and message: `(code: <name>, message: <message>)`.
pub open spec fn error_text(code: WifiErrorCodes, message: Seq<char>) -> Seq<char> {
    "(code: "@ + code.label() + ", message: "@ + message + ")"@
}

/// The daemon's control socket could not be opened: no session exists.
pub open spec fn session_setup_failed(cause: Seq<char>) -> WifiErrorView {
    WifiErrorView {
        code: WifiErrorCodes::UnableToGetWifiDeviceStatus,
        message: "unable to get wifi device status: "@ + cause,
    }
}

/// A scan or a listing of the remembered networks was rejected, or its channel failed.
pub open spec fn status_request_failed(cause: Seq<char>) -> WifiErrorView {
    WifiErrorView {
        code: WifiErrorCodes::UnableToGetWifiDeviceStatus,
        message: "unable to get wifi device status: "@ + cause,
    }
}

/// The removal of a remembered network was rejected, or its channel failed.
pub open spec fn remove_request_failed(cause: Seq<char>) -> WifiErrorView {
    WifiErrorView {
        code: WifiErrorCodes::UnableToRemoveWifiDevice,
        message: "unable to remove wifi network "@ + cause,
    }
}

/// A step of the connect sequence failed; `cause` is that of the first failing step.
pub open spec fn connect_failed(cause: Seq<char>) -> WifiErrorView {
    WifiErrorView {
        code: WifiErrorCodes::UnableToConnectToWifiDevice,
        message: "unable to connect to wifi network "@ + cause,
    }
}

/// The daemon claims an association that no scan entry corroborates.
pub open spec fn current_network_unresolved() -> WifiErrorView {
    WifiErrorView {
        code: WifiErrorCodes::UnableToGetWifiDeviceStatus,
        message: "unable to get current wifi network"@,
    }
}

impl WifiError {
    pub fn new(code: WifiErrorCodes, message: String) -> (error: Self)
        ensures
            error.code == code,
            error.message == message,
    {
        WifiError { code, message }
    }

    /// The error for a session that could not be set up.
    pub fn session_setup_failed(cause: &str) -> (error: Self)
        ensures
            error@ == session_setup_failed(cause@),
    {
        WifiError {
            code: WifiErrorCodes::UnableToGetWifiDeviceStatus,
            message: String::from_str("unable to get wifi device status: ").concat(cause),
        }
    }

    /// The error for a failed scan or listing.
    pub fn status_request_failed(cause: &str) -> (error: Self)
        ensures
            error@ == status_request_failed(cause@),
    {
        WifiError {
            code: WifiErrorCodes::UnableToGetWifiDeviceStatus,
            message: String::from_str("unable to get wifi device status: ").concat(cause),
        }
    }

    /// The error for a failed removal.
    pub fn remove_request_failed(cause: &str) -> (error: Self)
        ensures
            error@ == remove_request_failed(cause@),
    {
        WifiError {
            code: WifiErrorCodes::UnableToRemoveWifiDevice,
            message: String::from_str("unable to remove wifi network ").concat(cause),
        }
    }

    /// The error for a failed connect sequence.
    pub fn connect_failed(cause: &str) -> (error: Self)
        ensures
            error@ == connect_failed(cause@),
    {
        WifiError {
            code: WifiErrorCodes::UnableToConnectToWifiDevice,
            message: String::from_str("unable to connect to wifi network ").concat(cause),
        }
    }

    /// The error for an association that the scan does not corroborate.
    pub fn current_network_unresolved() -> (error: Self)
        ensures
            error@ == current_network_unresolved(),
    {
        WifiError {
            code: WifiErrorCodes::UnableToGetWifiDeviceStatus,
            message: String::from_str("unable to get current wifi network"),
        }
    }

    /// Renders the error as `(code: <name>, message: <message>)`.
    pub fn to_string(&self) -> (text: String)
        ensures
            text@ == error_text(self.code, self.message@),
    {
        let text = String::from_str("(code: ");
        let text = text.concat(self.code.to_string().as_str());
        let text = text.concat(", message: ");
        let text = text.concat(self.message.as_str());
        text.concat(")")
    }
}

} // verus!
