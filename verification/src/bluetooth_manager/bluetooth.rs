//! The Bluetooth adapter's power: what a request reports, from what the adapter answered.

use vstd::prelude::*;
use crate::bluetooth_manager::errors::{BluetoothError, BluetoothErrorCodes, BluetoothErrorView};

verus! {

/// The controller of the default Bluetooth adapter.
#[derive(Debug)]
pub struct BluetoothController;

/// A failure of the given class whose message is `prefix` and the adapter's cause.
pub open spec fn failed(code: BluetoothErrorCodes, prefix: Seq<char>, cause: Seq<char>) -> BluetoothErrorView {
    BluetoothErrorView { code, message: prefix + cause }
}

impl BluetoothController {
    pub fn new() -> (controller: Self) {
        BluetoothController
    }

    /// Whether the adapter is powered, from its answer.
    pub fn bluetooth_status(&self, powered: Result<bool, String>) -> (outcome: Result<
        bool,
        BluetoothError,
    >)
        ensures
            match powered {
                Ok(on) => outcome is Ok && outcome->Ok_0 == on,
                Err(cause) => outcome is Err && outcome->Err_0@ == failed(
                    BluetoothErrorCodes::UnableToGetBluetoothDeviceStatus,
                    "unable to get bluetooth status: "@,
                    cause@,
                ),
            },
    {
        match powered {
            Ok(on) => Ok(on),
            Err(cause) => Err(
                BluetoothError::because(
                    BluetoothErrorCodes::UnableToGetBluetoothDeviceStatus,
                    "unable to get bluetooth status: ",
                    cause.as_str(),
                ),
            ),
        }
    }

    /// The outcome of powering the adapter on, from its answer.
    pub fn enable_bluetooth(&self, powered: Result<(), String>) -> (outcome: Result<
        (),
        BluetoothError,
    >)
        ensures
            match powered {
                Ok(_) => outcome is Ok,
                Err(cause) => outcome is Err && outcome->Err_0@ == failed(
                    BluetoothErrorCodes::UnableToTurnOnBluetooth,
                    "unable to turn on bluetooth: "@,
                    cause@,
                ),
            },
    {
        match powered {
            Ok(()) => Ok(()),
            Err(cause) => Err(
                BluetoothError::because(
                    BluetoothErrorCodes::UnableToTurnOnBluetooth,
                    "unable to turn on bluetooth: ",
                    cause.as_str(),
                ),
            ),
        }
    }

    /// The outcome of powering the adapter off, from its answer.
    pub fn disable_bluetooth(&self, powered: Result<(), String>) -> (outcome: Result<
        (),
        BluetoothError,
    >)
        ensures
            match powered {
                Ok(_) => outcome is Ok,
                Err(cause) => outcome is Err && outcome->Err_0@ == failed(
                    BluetoothErrorCodes::UnableToTurnOffBluetooth,
                    "unable to turn off bluetooth: "@,
                    cause@,
                ),
            },
    {
        match powered {
            Ok(()) => Ok(()),
            Err(cause) => Err(
                BluetoothError::because(
                    BluetoothErrorCodes::UnableToTurnOffBluetooth,
                    "unable to turn off bluetooth: ",
                    cause.as_str(),
                ),
            ),
        }
    }
}

} // verus!
