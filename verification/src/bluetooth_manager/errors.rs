//! What a Bluetooth request reports when it fails.

use vstd::prelude::*;
use vstd::string::StringExecFns;

verus! {

/// The reason class of a failure.
#[derive(Debug, Clone, Copy, PartialEq, Eq, Structural)]
pub enum BluetoothErrorCodes {
    UnableToGetBluetoothDeviceStatus,
    UnableToTurnOnBluetooth,
    UnableToTurnOffBluetooth,
}

impl BluetoothErrorCodes {
    /// The code's name, as it is written in logs and messages.
    pub open spec fn label(self) -> Seq<char> {
        match self {
            BluetoothErrorCodes::UnableToGetBluetoothDeviceStatus => "UnableToGetBluetoothDeviceStatus"@,
            BluetoothErrorCodes::UnableToTurnOnBluetooth => "UnableToTurnOnBluetooth"@,
            BluetoothErrorCodes::UnableToTurnOffBluetooth => "UnableToTurnOffBluetooth"@,
        }
    }

    /// Renders the code as its name.
    pub fn to_string(&self) -> (text: String)
        ensures
            text@ == self.label(),
    {
        match self {
            BluetoothErrorCodes::UnableToGetBluetoothDeviceStatus => String::from_str("UnableToGetBluetoothDeviceStatus"),
            BluetoothErrorCodes::UnableToTurnOnBluetooth => String::from_str("UnableToTurnOnBluetooth"),
            BluetoothErrorCodes::UnableToTurnOffBluetooth => String::from_str("UnableToTurnOffBluetooth"),
        }
    }
}

/// A failure: its reason class and a message that carries the underlying cause.
#[derive(Debug)]
pub struct BluetoothError {
    pub code: BluetoothErrorCodes,
    pub message: String,
}

/// A failure as plain values.
pub struct BluetoothErrorView {
    pub code: BluetoothErrorCodes,
    pub message: Seq<char>,
}

impl View for BluetoothError {
    type V = BluetoothErrorView;

    open spec fn view(&self) -> BluetoothErrorView {
        BluetoothErrorView { code: self.code, message: self.message@ }
    }
}

impl BluetoothErrorView {
    /// The text of the failure: `(code: <name>, message: <message>)`.
    pub open spec fn text(self) -> Seq<char> {
        "(code: "@ + self.code.label() + ", message: "@ + self.message + ")"@
    }
}

impl BluetoothError {
    pub fn new(code: BluetoothErrorCodes, message: String) -> (error: Self)
        ensures
            error.code == code,
            error.message == message,
    {
        BluetoothError { code, message }
    }

    /// A failure whose message is `prefix` followed by `cause`.
    pub fn because(code: BluetoothErrorCodes, prefix: &str, cause: &str) -> (error: Self)
        ensures
            error@ == (BluetoothErrorView { code, message: prefix@ + cause@ }),
    {
        BluetoothError { code, message: String::from_str(prefix).concat(cause) }
    }

    /// Renders the failure as `(code: <name>, message: <message>)`.
    pub fn to_string(&self) -> (text: String)
        ensures
            text@ == self@.text(),
    {
        let text = String::from_str("(code: ");
        let text = text.concat(self.code.to_string().as_str());
        let text = text.concat(", message: ");
        let text = text.concat(self.message.as_str());
        text.concat(")")
    }
}

} // verus!
