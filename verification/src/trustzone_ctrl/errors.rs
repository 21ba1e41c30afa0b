//! What a request to the trust chip reports when it fails.

use vstd::prelude::*;
use vstd::string::StringExecFns;

verus! {

/// The reason class of a failure.
#[derive(Debug, Clone, Copy, PartialEq, Eq, Structural)]
pub enum TrustZoneCtrlErrorCodes {
    UnableToReadTrustZoneCert,
    FileReadError,
    UnableToWriteTrustZoneCert,
    UnableToRemoveTrustZoneCert,
    UnableToGenrateToken,
    UnableToSignTrust,
    UnableToSignTrustZoneData,
    UnableToVerifyToken,
    UnableToVerifyTrustZoneData,
    UnableToGenerateTrustZoneKey,
    UnableToReadTrustDeviceKey,
    UnableToGenerateTrustZoneHMAC,
    UnableToDeriveTrustZoneKey,
    UnableToDecryptTrust,
    UnableToEncryptTrust,
}

impl TrustZoneCtrlErrorCodes {
    /// The code's name, as it is written in logs and messages.
    pub open spec fn label(self) -> Seq<char> {
        match self {
            TrustZoneCtrlErrorCodes::UnableToReadTrustZoneCert => "UnableToReadTrustZoneCert"@,
            TrustZoneCtrlErrorCodes::FileReadError => "FileReadError"@,
            TrustZoneCtrlErrorCodes::UnableToWriteTrustZoneCert => "UnableToWriteTrustZoneCert"@,
            TrustZoneCtrlErrorCodes::UnableToRemoveTrustZoneCert => "UnableToRemoveTrustZoneCert"@,
            TrustZoneCtrlErrorCodes::UnableToGenrateToken => "UnableToGenrateToken"@,
            TrustZoneCtrlErrorCodes::UnableToSignTrust => "UnableToSignTrust"@,
            TrustZoneCtrlErrorCodes::UnableToSignTrustZoneData => "UnableToSignTrustZoneData"@,
            TrustZoneCtrlErrorCodes::UnableToVerifyToken => "UnableToVerifyToken"@,
            TrustZoneCtrlErrorCodes::UnableToVerifyTrustZoneData => "UnableToVerifyTrustZoneData"@,
            TrustZoneCtrlErrorCodes::UnableToGenerateTrustZoneKey => "UnableToGenerateTrustZoneKey"@,
            TrustZoneCtrlErrorCodes::UnableToReadTrustDeviceKey => "UnableToReadTrustDeviceKey"@,
            TrustZoneCtrlErrorCodes::UnableToGenerateTrustZoneHMAC => "UnableToGenerateTrustZoneHMAC"@,
            TrustZoneCtrlErrorCodes::UnableToDeriveTrustZoneKey => "UnableToDeriveTrustZoneKey"@,
            TrustZoneCtrlErrorCodes::UnableToDecryptTrust => "UnableToDecryptTrust"@,
            TrustZoneCtrlErrorCodes::UnableToEncryptTrust => "UnableToEncryptTrust"@,
        }
    }

    /// Renders the code as its name.
    pub fn to_string(&self) -> (text: String)
        ensures
            text@ == self.label(),
    {
        match self {
            TrustZoneCtrlErrorCodes::UnableToReadTrustZoneCert => String::from_str("UnableToReadTrustZoneCert"),
            TrustZoneCtrlErrorCodes::FileReadError => String::from_str("FileReadError"),
            TrustZoneCtrlErrorCodes::UnableToWriteTrustZoneCert => String::from_str("UnableToWriteTrustZoneCert"),
            TrustZoneCtrlErrorCodes::UnableToRemoveTrustZoneCert => String::from_str("UnableToRemoveTrustZoneCert"),
            TrustZoneCtrlErrorCodes::UnableToGenrateToken => String::from_str("UnableToGenrateToken"),
            TrustZoneCtrlErrorCodes::UnableToSignTrust => String::from_str("UnableToSignTrust"),
            TrustZoneCtrlErrorCodes::UnableToSignTrustZoneData => String::from_str("UnableToSignTrustZoneData"),
            TrustZoneCtrlErrorCodes::UnableToVerifyToken => String::from_str("UnableToVerifyToken"),
            TrustZoneCtrlErrorCodes::UnableToVerifyTrustZoneData => String::from_str("UnableToVerifyTrustZoneData"),
            TrustZoneCtrlErrorCodes::UnableToGenerateTrustZoneKey => String::from_str("UnableToGenerateTrustZoneKey"),
            TrustZoneCtrlErrorCodes::UnableToReadTrustDeviceKey => String::from_str("UnableToReadTrustDeviceKey"),
            TrustZoneCtrlErrorCodes::UnableToGenerateTrustZoneHMAC => String::from_str("UnableToGenerateTrustZoneHMAC"),
            TrustZoneCtrlErrorCodes::UnableToDeriveTrustZoneKey => String::from_str("UnableToDeriveTrustZoneKey"),
            TrustZoneCtrlErrorCodes::UnableToDecryptTrust => String::from_str("UnableToDecryptTrust"),
            TrustZoneCtrlErrorCodes::UnableToEncryptTrust => String::from_str("UnableToEncryptTrust"),
        }
    }
}

/// A failure: its reason class and a message that carries the underlying cause.
#[derive(Debug)]
pub struct TrustZoneCtrlError {
    pub code: TrustZoneCtrlErrorCodes,
    pub message: String,
}

/// A failure as plain values.
pub struct TrustZoneCtrlErrorView {
    pub code: TrustZoneCtrlErrorCodes,
    pub message: Seq<char>,
}

impl View for TrustZoneCtrlError {
    type V = TrustZoneCtrlErrorView;

    open spec fn view(&self) -> TrustZoneCtrlErrorView {
        TrustZoneCtrlErrorView { code: self.code, message: self.message@ }
    }
}

impl TrustZoneCtrlErrorView {
    /// The text of the failure: `(code: <name>, message: <message>)`.
    pub open spec fn text(self) -> Seq<char> {
        "(code: "@ + self.code.label() + ", message: "@ + self.message + ")"@
    }
}

impl TrustZoneCtrlError {
    pub fn new(code: TrustZoneCtrlErrorCodes, message: String) -> (error: Self)
        ensures
            error.code == code,
            error.message == message,
    {
        TrustZoneCtrlError { code, message }
    }

    /// A failure whose message is `prefix` followed by `cause`.
    pub fn because(code: TrustZoneCtrlErrorCodes, prefix: &str, cause: &str) -> (error: Self)
        ensures
            error@ == (TrustZoneCtrlErrorView { code, message: prefix@ + cause@ }),
    {
        TrustZoneCtrlError { code, message: String::from_str(prefix).concat(cause) }
    }

    /// Renders the failure as `(code: <name>, message: <message>)`.
    pub fn to_string(&self) -> (text: String)
        ensures
            text@ == self@.text(),
    {
        let text = String::from_str("(code: ");
        let text = text.concat(self.code.to_string().as_str());
        let text = text.concat(", message: ");
        let text = text.concat(self.message.as_str());
        text.concat(")")
    }
}

} // verus!
