//! The trust chip, driven through its command-line tools: which command to run for a
//! request, and what the request reports for what the tool did.

use vstd::prelude::*;
use vstd::string::StringExecFns;
use crate::text::{hex_u16, to_hex_u16};
use crate::trustzone_ctrl::errors::{
    TrustZoneCtrlError,
    TrustZoneCtrlErrorCodes,
    TrustZoneCtrlErrorView,
};

verus! {

/// What a key may be used for.
#[derive(Debug, Clone, Copy, PartialEq, Eq, Structural)]
pub enum KeyType {
    Auth,
    Enc,
    HFWU,
    DevM,
    Sign,
    Agmt,
}

impl KeyType {
    /// The usage as the key-generation tool takes it.
    pub open spec fn flag(self) -> Seq<char> {
        match self {
            KeyType::Auth => "0x01"@,
            KeyType::Enc => "0x02"@,
            KeyType::HFWU => "0x04"@,
            KeyType::DevM => "0x08"@,
            KeyType::Sign => "0x10"@,
            KeyType::Agmt => "0x20"@,
        }
    }

    /// The usage that a request's number stands for.
    pub open spec fn of_code(code: i32) -> Option<KeyType> {
        if code == 0 {
            Some(KeyType::Auth)
        } else if code == 1 {
            Some(KeyType::Enc)
        } else if code == 2 {
            Some(KeyType::HFWU)
        } else if code == 3 {
            Some(KeyType::DevM)
        } else if code == 4 {
            Some(KeyType::Sign)
        } else if code == 5 {
            Some(KeyType::Agmt)
        } else {
            None
        }
    }

    /// Reads a request's usage number, 0 to 5; no other number is a usage.
    pub fn from_code(code: i32) -> (key_type: Option<KeyType>)
        ensures
            key_type == KeyType::of_code(code),
    {
        match code {
            0 => Some(KeyType::Auth),
            1 => Some(KeyType::Enc),
            2 => Some(KeyType::HFWU),
            3 => Some(KeyType::DevM),
            4 => Some(KeyType::Sign),
            5 => Some(KeyType::Agmt),
            _ => None,
        }
    }

    fn flag_text(&self) -> (text: String)
        ensures
            text@ == self.flag(),
    {
        match self {
            KeyType::Auth => String::from_str("0x01"),
            KeyType::Enc => String::from_str("0x02"),
            KeyType::HFWU => String::from_str("0x04"),
            KeyType::DevM => String::from_str("0x08"),
            KeyType::Sign => String::from_str("0x10"),
            KeyType::Agmt => String::from_str("0x20"),
        }
    }
}

/// The curve and size of a key.
#[derive(Debug, Clone, Copy, PartialEq, Eq, Structural)]
pub enum KeySize {
    ECC256,
    ECC384,
    ECC521,
    BRAINPOOL256,
    BRAINPOOL384,
    BRAINPOOL512,
}

impl KeySize {
    /// The size as the key-generation tool takes it.
    pub open spec fn flag(self) -> Seq<char> {
        match self {
            KeySize::ECC256 => "0x03"@,
            KeySize::ECC384 => "0x04"@,
            KeySize::ECC521 => "0x05"@,
            KeySize::BRAINPOOL256 => "0x13"@,
            KeySize::BRAINPOOL384 => "0x15"@,
            KeySize::BRAINPOOL512 => "0x16"@,
        }
    }

    /// The size that a request's number stands for.
    pub open spec fn of_code(code: i32) -> Option<KeySize> {
        if code == 0 {
            Some(KeySize::ECC256)
        } else if code == 1 {
            Some(KeySize::ECC384)
        } else if code == 2 {
            Some(KeySize::ECC521)
        } else if code == 3 {
            Some(KeySize::BRAINPOOL256)
        } else if code == 4 {
            Some(KeySize::BRAINPOOL384)
        } else if code == 5 {
            Some(KeySize::BRAINPOOL512)
        } else {
            None
        }
    }

    /// Reads a request's size number, 0 to 5; no other number is a size.
    pub fn from_code(code: i32) -> (key_size: Option<KeySize>)
        ensures
            key_size == KeySize::of_code(code),
    {
        match code {
            0 => Some(KeySize::ECC256),
            1 => Some(KeySize::ECC384),
            2 => Some(KeySize::ECC521),
            3 => Some(KeySize::BRAINPOOL256),
            4 => Some(KeySize::BRAINPOOL384),
            5 => Some(KeySize::BRAINPOOL512),
            _ => None,
        }
    }

    fn flag_text(&self) -> (text: String)
        ensures
            text@ == self.flag(),
    {
        match self {
            KeySize::ECC256 => String::from_str("0x03"),
            KeySize::ECC384 => String::from_str("0x04"),
            KeySize::ECC521 => String::from_str("0x05"),
            KeySize::BRAINPOOL256 => String::from_str("0x13"),
            KeySize::BRAINPOOL384 => String::from_str("0x15"),
            KeySize::BRAINPOOL512 => String::from_str("0x16"),
        }
    }
}

/// What running a tool came to.
#[derive(Debug, Clone, PartialEq, Eq)]
pub enum Ran {
    /// The tool could not be started, with the system's cause.
    NotStarted(String),
    /// The tool ran and exited: whether with success, and its exit status as text.
    Exited { success: bool, status: String },
}

/// How the failures of one kind of request are worded.
pub struct Wording {
    /// The reason class of every failure of the request.
    pub code: TrustZoneCtrlErrorCodes,
    /// What introduces the cause of a tool that could not be started.
    pub not_started: Seq<char>,
    /// What introduces the failure of the request.
    pub failed: Seq<char>,
}

impl Wording {
    /// What the request reports once the tool was run: nothing to report when it ran
    /// and, where `checked`, exited with success; else the failure. A tool that could not
    /// be started is reported as the request's failure around the failure to start,
    /// written out.
    pub open spec fn after_run(self, checked: bool, ran: Ran) -> Result<
        (),
        TrustZoneCtrlErrorView,
    > {
        match ran {
            Ran::NotStarted(cause) => Err(
                TrustZoneCtrlErrorView {
                    code: self.code,
                    message: self.failed + (TrustZoneCtrlErrorView {
                        code: self.code,
                        message: self.not_started + cause@,
                    }).text(),
                },
            ),
            Ran::Exited { success, status } => if checked && !success {
                Err(TrustZoneCtrlErrorView { code: self.code, message: self.failed + status@ })
            } else {
                Ok(())
            },
        }
    }
}

/// What a request reports once the tool's output file was read: the file's text, or the
/// failure of the given class that `unreadable` introduces.
pub open spec fn after_read(
    code: TrustZoneCtrlErrorCodes,
    unreadable: Seq<char>,
    read: Result<String, String>,
) -> Result<Seq<char>, TrustZoneCtrlErrorView> {
    match read {
        Ok(text) => Ok(text@),
        Err(cause) => Err(TrustZoneCtrlErrorView { code, message: unreadable + cause@ }),
    }
}

/// What an encryption or decryption reports once the chip's device file was read: the
/// file's text, or the failure that `unreadable` introduces around the failure to read,
/// written out.
pub open spec fn after_device_read(unreadable: Seq<char>, read: Result<String, String>) -> Result<
    Seq<char>,
    TrustZoneCtrlErrorView,
> {
    match read {
        Ok(text) => Ok(text@),
        Err(cause) => Err(
            TrustZoneCtrlErrorView {
                code: TrustZoneCtrlErrorCodes::UnableToReadTrustZoneCert,
                message: unreadable + (TrustZoneCtrlErrorView {
                    code: TrustZoneCtrlErrorCodes::FileReadError,
                    message: cause@,
                }).text(),
            },
        ),
    }
}

/// The view of a request's outcome.
pub open spec fn text_view(outcome: Result<String, TrustZoneCtrlError>) -> Result<
    Seq<char>,
    TrustZoneCtrlErrorView,
> {
    match outcome {
        Ok(text) => Ok(text@),
        Err(error) => Err(error@),
    }
}

/// The view of the outcome of a request that has no result but success.
pub open spec fn unit_view(outcome: Result<(), TrustZoneCtrlError>) -> Result<
    (),
    TrustZoneCtrlErrorView,
> {
    match outcome {
        Ok(_) => Ok(()),
        Err(error) => Err(error@),
    }
}

pub open spec fn read_cert_wording() -> Wording {
    Wording {
        code: TrustZoneCtrlErrorCodes::UnableToReadTrustZoneCert,
        not_started: "Error executing trustm_cert: "@,
        failed: "unable to read cert: "@,
    }
}

pub open spec fn write_cert_wording() -> Wording {
    Wording {
        code: TrustZoneCtrlErrorCodes::UnableToWriteTrustZoneCert,
        not_started: "Error executing trustm_cert: "@,
        failed: "unable to write cert: "@,
    }
}

pub open spec fn remove_cert_wording() -> Wording {
    Wording {
        code: TrustZoneCtrlErrorCodes::UnableToRemoveTrustZoneCert,
        not_started: "Error executing trustm_cert: "@,
        failed: "unable to remove cert: "@,
    }
}

pub open spec fn generate_key_wording() -> Wording {
    Wording {
        code: TrustZoneCtrlErrorCodes::UnableToGenerateTrustZoneKey,
        not_started: "Error executing trustm_ecc_keygen: "@,
        failed: "unable to generate key: "@,
    }
}

pub open spec fn sign_wording() -> Wording {
    Wording {
        code: TrustZoneCtrlErrorCodes::UnableToSignTrustZoneData,
        not_started: "Error executing trustm_ecc_sign: "@,
        failed: "unable to sign data: "@,
    }
}

pub open spec fn verify_wording() -> Wording {
    Wording {
        code: TrustZoneCtrlErrorCodes::UnableToVerifyTrustZoneData,
        not_started: "Error executing trustm_ecc_verify: "@,
        failed: "unable to verify data: "@,
    }
}

pub open spec fn derive_key_wording() -> Wording {
    Wording {
        code: TrustZoneCtrlErrorCodes::UnableToDeriveTrustZoneKey,
        not_started: "Error executing trustm_hkdf: "@,
        failed: "unable to derive key: "@,
    }
}

pub open spec fn hmac_wording() -> Wording {
    Wording {
        code: TrustZoneCtrlErrorCodes::UnableToGenerateTrustZoneHMAC,
        not_started: "Error executing trustm_hmac: "@,
        failed: "unable to generate HMAC: "@,
    }
}

/// The directory of the trust chip's tools.
#[derive(Debug)]
pub struct TrustZoneCtrl {
    pub path: String,
}

impl Default for TrustZoneCtrl {
    fn default() -> (ctrl: Self)
        ensures
            ctrl.path@ == Seq::<char>::empty(),
    {
        TrustZoneCtrl { path: String::new() }
    }
}

fn run_outcome(
    code: TrustZoneCtrlErrorCodes,
    not_started: &str,
    failed: &str,
    checked: bool,
    ran: Ran,
) -> (outcome: Result<(), TrustZoneCtrlError>)
    ensures
        unit_view(outcome) == (Wording { code, not_started: not_started@, failed: failed@ }).after_run(
            checked,
            ran,
        ),
{
    match ran {
        Ran::NotStarted(cause) => {
            let inner = TrustZoneCtrlError::because(code, not_started, cause.as_str());
            Err(TrustZoneCtrlError::because(code, failed, inner.to_string().as_str()))
        },
        Ran::Exited { success, status } => {
            if checked && !success {
                Err(TrustZoneCtrlError::because(code, failed, status.as_str()))
            } else {
                Ok(())
            }
        },
    }
}

fn read_outcome(code: TrustZoneCtrlErrorCodes, unreadable: &str, read: Result<String, String>) -> (outcome:
    Result<String, TrustZoneCtrlError>)
    ensures
        text_view(outcome) == after_read(code, unreadable@, read),
{
    match read {
        Ok(text) => Ok(text),
        Err(cause) => Err(TrustZoneCtrlError::because(code, unreadable, cause.as_str())),
    }
}

fn device_read_outcome(unreadable: &str, read: Result<String, String>) -> (outcome: Result<
    String,
    TrustZoneCtrlError,
>)
    ensures
        text_view(outcome) == after_device_read(unreadable@, read),
{
    match read {
        Ok(text) => Ok(text),
        Err(cause) => {
            let inner = TrustZoneCtrlError::new(TrustZoneCtrlErrorCodes::FileReadError, cause);
            Err(
                TrustZoneCtrlError::because(
                    TrustZoneCtrlErrorCodes::UnableToReadTrustZoneCert,
                    unreadable,
                    inner.to_string().as_str(),
                ),
            )
        },
    }
}

fn word(text: &str) -> (owned: String)
    ensures
        owned@ == text@,
{
    String::from_str(text)
}

impl TrustZoneCtrl {
    pub fn new() -> (ctrl: Self)
        ensures
            ctrl.path@ == "/MECHA_TEST/optiga_trust_m"@,
    {
        TrustZoneCtrl { path: String::from_str("/MECHA_TEST/optiga_trust_m") }
    }

    /// The command that reads the certificate of `region` into `output_file`.
    pub fn read_trustzone_cert_command(&self, output_file: &str, region: &str) -> (command: Vec<
        String,
    >)
        ensures
            command.deep_view() == seq![
                "/MECHA_TEST/optiga_trust_m/trustm_cert"@,
                "-r"@,
                region@,
                "-o"@,
                output_file@,
            ],
    {
        let mut command: Vec<String> = Vec::new();
        command.push(word("/MECHA_TEST/optiga_trust_m/trustm_cert"));
        command.push(word("-r"));
        command.push(word(region));
        command.push(word("-o"));
        command.push(word(output_file));
        assert(command.deep_view() =~= seq![
            "/MECHA_TEST/optiga_trust_m/trustm_cert"@,
            "-r"@,
            region@,
            "-o"@,
            output_file@,
        ]);
        command
    }

    /// What reading a certificate reports once the tool was run; where that is nothing,
    /// the output file is to be read next. How the tool exited is not looked at.
    pub fn read_trustzone_cert(&self, ran: Ran) -> (outcome: Result<(), TrustZoneCtrlError>)
        ensures
            unit_view(outcome) == read_cert_wording().after_run(false, ran),
    {
        run_outcome(
            TrustZoneCtrlErrorCodes::UnableToReadTrustZoneCert,
            "Error executing trustm_cert: ",
            "unable to read cert: ",
            false,
            ran,
        )
    }

    /// The certificate, from the outcome of reading the output file.
    pub fn read_trustzone_cert_output(&self, read: Result<String, String>) -> (outcome: Result<
        String,
        TrustZoneCtrlError,
    >)
        ensures
            text_view(outcome) == after_read(
                TrustZoneCtrlErrorCodes::UnableToReadTrustZoneCert,
                "unable to read cert: "@,
                read,
            ),
    {
        read_outcome(TrustZoneCtrlErrorCodes::UnableToReadTrustZoneCert, "unable to read cert: ", read)
    }

    /// The command that writes the certificate in `cert_file` to the object `oid`.
    pub fn write_trustzone_cert_command(&self, cert_file: &str, oid: &str) -> (command: Vec<String>)
        ensures
            command.deep_view() == seq![
                "/MECHA_TEST/optiga_trust_m/trustm_cert"@,
                "-w"@,
                oid@,
                "-i"@,
                cert_file@,
            ],
    {
        let mut command: Vec<String> = Vec::new();
        command.push(word("/MECHA_TEST/optiga_trust_m/trustm_cert"));
        command.push(word("-w"));
        command.push(word(oid));
        command.push(word("-i"));
        command.push(word(cert_file));
        assert(command.deep_view() =~= seq![
            "/MECHA_TEST/optiga_trust_m/trustm_cert"@,
            "-w"@,
            oid@,
            "-i"@,
            cert_file@,
        ]);
        command
    }

    /// What writing a certificate reports once the tool was run.
    pub fn write_trustzone_cert(&self, ran: Ran) -> (outcome: Result<(), TrustZoneCtrlError>)
        ensures
            unit_view(outcome) == write_cert_wording().after_run(true, ran),
    {
        run_outcome(
            TrustZoneCtrlErrorCodes::UnableToWriteTrustZoneCert,
            "Error executing trustm_cert: ",
            "unable to write cert: ",
            true,
            ran,
        )
    }

    /// The command that clears the certificate of the object `oid`.
    pub fn remove_trustzone_cert_command(&self, oid: &str) -> (command: Vec<String>)
        ensures
            command.deep_view() == seq!["/MECHA_TEST/optiga_trust_m/trustm_cert"@, "-c"@, oid@],
    {
        let mut command: Vec<String> = Vec::new();
        command.push(word("/MECHA_TEST/optiga_trust_m/trustm_cert"));
        command.push(word("-c"));
        command.push(word(oid));
        assert(command.deep_view() =~= seq![
            "/MECHA_TEST/optiga_trust_m/trustm_cert"@,
            "-c"@,
            oid@,
        ]);
        command
    }

    /// What removing a certificate reports once the tool was run.
    pub fn remove_trustzone_cert(&self, ran: Ran) -> (outcome: Result<(), TrustZoneCtrlError>)
        ensures
            unit_view(outcome) == remove_cert_wording().after_run(true, ran),
    {
        run_outcome(
            TrustZoneCtrlErrorCodes::UnableToRemoveTrustZoneCert,
            "Error executing trustm_cert: ",
            "unable to remove cert: ",
            true,
            ran,
        )
    }

    /// The command that generates a key in the object `oid` and writes its public half to
    /// `output_file`.
    pub fn generate_trustzone_key_command(
        &self,
        oid: &str,
        key_type: KeyType,
        key_size: KeySize,
        output_file: &str,
    ) -> (command: Vec<String>)
        ensures
            command.deep_view() == seq![
                "/MECHA_TEST/optiga_trust_m/trustm_ecc_keygen"@,
                "-g"@,
                oid@,
                "-t"@,
                key_type.flag(),
                "-k"@,
                key_size.flag(),
                "-o"@,
                output_file@,
            ],
    {
        let mut command: Vec<String> = Vec::new();
        command.push(word("/MECHA_TEST/optiga_trust_m/trustm_ecc_keygen"));
        command.push(word("-g"));
        command.push(word(oid));
        command.push(word("-t"));
        command.push(key_type.flag_text());
        command.push(word("-k"));
        command.push(key_size.flag_text());
        command.push(word("-o"));
        command.push(word(output_file));
        assert(command.deep_view() =~= seq![
            "/MECHA_TEST/optiga_trust_m/trustm_ecc_keygen"@,
            "-g"@,
            oid@,
            "-t"@,
            key_type.flag(),
            "-k"@,
            key_size.flag(),
            "-o"@,
            output_file@,
        ]);
        command
    }

    /// What generating a key reports once the tool was run; where that is nothing, the
    /// output file is to be read next.
    pub fn generate_trustzone_key(&self, ran: Ran) -> (outcome: Result<(), TrustZoneCtrlError>)
        ensures
            unit_view(outcome) == generate_key_wording().after_run(true, ran),
    {
        run_outcome(
            TrustZoneCtrlErrorCodes::UnableToGenerateTrustZoneKey,
            "Error executing trustm_ecc_keygen: ",
            "unable to generate key: ",
            true,
            ran,
        )
    }

    /// The public key, from the outcome of reading the output file.
    pub fn generate_trustzone_key_output(&self, read: Result<String, String>) -> (outcome: Result<
        String,
        TrustZoneCtrlError,
    >)
        ensures
            text_view(outcome) == after_read(
                TrustZoneCtrlErrorCodes::UnableToGenerateTrustZoneKey,
                "unable to read public key: "@,
                read,
            ),
    {
        read_outcome(
            TrustZoneCtrlErrorCodes::UnableToGenerateTrustZoneKey,
            "unable to read public key: ",
            read,
        )
    }

    /// The command that signs `input_file` with the key `key_oid` into `output_file`,
    /// hashing the input first where asked.
    pub fn sign_trustzone_data_command(
        &self,
        key_oid: &str,
        input_file: &str,
        output_file: &str,
        hash_before_sign: bool,
    ) -> (command: Vec<String>)
        ensures
            command.deep_view() == seq![
                "/MECHA_TEST/optiga_trust_m/trustm_ecc_sign"@,
                "-k"@,
                key_oid@,
                "-o"@,
                output_file@,
                "-i"@,
                input_file@,
            ] + if hash_before_sign {
                seq!["-H"@]
            } else {
                Seq::<Seq<char>>::empty()
            },
    {
        let mut command: Vec<String> = Vec::new();
        command.push(word("/MECHA_TEST/optiga_trust_m/trustm_ecc_sign"));
        command.push(word("-k"));
        command.push(word(key_oid));
        command.push(word("-o"));
        command.push(word(output_file));
        command.push(word("-i"));
        command.push(word(input_file));
        if hash_before_sign {
            command.push(word("-H"));
        }
        assert(command.deep_view() =~= seq![
            "/MECHA_TEST/optiga_trust_m/trustm_ecc_sign"@,
            "-k"@,
            key_oid@,
            "-o"@,
            output_file@,
            "-i"@,
            input_file@,
        ] + if hash_before_sign {
            seq!["-H"@]
        } else {
            Seq::<Seq<char>>::empty()
        });
        command
    }

    /// What signing reports once the tool was run; where that is nothing, the output file
    /// is to be read next.
    pub fn sign_trustzone_data(&self, ran: Ran) -> (outcome: Result<(), TrustZoneCtrlError>)
        ensures
            unit_view(outcome) == sign_wording().after_run(true, ran),
    {
        run_outcome(
            TrustZoneCtrlErrorCodes::UnableToSignTrustZoneData,
            "Error executing trustm_ecc_sign: ",
            "unable to sign data: ",
            true,
            ran,
        )
    }

    /// The signature, from the outcome of reading the output file.
    pub fn sign_trustzone_data_output(&self, read: Result<String, String>) -> (outcome: Result<
        String,
        TrustZoneCtrlError,
    >)
        ensures
            text_view(outcome) == after_read(
                TrustZoneCtrlErrorCodes::UnableToSignTrustZoneData,
                "unable to read signed data: "@,
                read,
            ),
    {
        read_outcome(
            TrustZoneCtrlErrorCodes::UnableToSignTrustZoneData,
            "unable to read signed data: ",
            read,
        )
    }

    /// The command that verifies the signature in `signature_file` of `input_file`
    /// against the public key in `pubkey_file`, hashing the input first where asked.
    pub fn verify_trustzone_data_command(
        &self,
        pubkey_file: &str,
        input_file: &str,
        signature_file: &str,
        hash_before_verify: bool,
    ) -> (command: Vec<String>)
        ensures
            command.deep_view() == seq![
                "/MECHA_TEST/optiga_trust_m/trustm_ecc_verify"@,
                "-p"@,
                pubkey_file@,
                "-i"@,
                input_file@,
                "-s"@,
                signature_file@,
            ] + if hash_before_verify {
                seq!["-H"@]
            } else {
                Seq::<Seq<char>>::empty()
            },
    {
        let mut command: Vec<String> = Vec::new();
        command.push(word("/MECHA_TEST/optiga_trust_m/trustm_ecc_verify"));
        command.push(word("-p"));
        command.push(word(pubkey_file));
        command.push(word("-i"));
        command.push(word(input_file));
        command.push(word("-s"));
        command.push(word(signature_file));
        if hash_before_verify {
            command.push(word("-H"));
        }
        assert(command.deep_view() =~= seq![
            "/MECHA_TEST/optiga_trust_m/trustm_ecc_verify"@,
            "-p"@,
            pubkey_file@,
            "-i"@,
            input_file@,
            "-s"@,
            signature_file@,
        ] + if hash_before_verify {
            seq!["-H"@]
        } else {
            Seq::<Seq<char>>::empty()
        });
        command
    }

    /// What verifying reports once the tool was run: `Verify Success.` when it exited
    /// with success.
    pub fn verify_trustzone_data(&self, ran: Ran) -> (outcome: Result<String, TrustZoneCtrlError>)
        ensures
            match verify_wording().after_run(true, ran) {
                Ok(_) => outcome is Ok && outcome->Ok_0@ == "Verify Success."@,
                Err(error) => outcome is Err && outcome->Err_0@ == error,
            },
    {
        match run_outcome(
            TrustZoneCtrlErrorCodes::UnableToVerifyTrustZoneData,
            "Error executing trustm_ecc_verify: ",
            "unable to verify data: ",
            true,
            ran,
        ) {
            Ok(()) => Ok(String::from_str("Verify Success.")),
            Err(error) => Err(error),
        }
    }

    /// The device file from which an encryption is read.
    pub fn encrypt_device(&self) -> (path: &'static str)
        ensures
            path@ == "/dev/trustzone_encrypt"@,
    {
        "/dev/trustzone_encrypt"
    }

    /// The device file from which a decryption is read.
    pub fn decrypt_device(&self) -> (path: &'static str)
        ensures
            path@ == "/dev/trustzone_decrypt"@,
    {
        "/dev/trustzone_decrypt"
    }

    /// The encryption, from the outcome of reading the chip's device file. The data takes
    /// no part in it.
    pub fn encrypt_trustzone_data(&self, _data: &str, read: Result<String, String>) -> (outcome:
        Result<String, TrustZoneCtrlError>)
        ensures
            text_view(outcome) == after_device_read("unable to read encrypted_data: "@, read),
    {
        device_read_outcome("unable to read encrypted_data: ", read)
    }

    /// The decryption, from the outcome of reading the chip's device file. The data takes
    /// no part in it.
    pub fn decrypt_trustzone_data(&self, _data: &str, read: Result<String, String>) -> (outcome:
        Result<String, TrustZoneCtrlError>)
        ensures
            text_view(outcome) == after_device_read("unable to read decrypted_data: "@, read),
    {
        device_read_outcome("unable to read decrypted_data: ", read)
    }

    /// The encryption with a key, from the outcome of reading the chip's device file.
    /// Neither the data nor the key takes part in it.
    pub fn encrypt_trustzone_data_with_key(
        &self,
        _data: &str,
        _key: &str,
        read: Result<String, String>,
    ) -> (outcome: Result<String, TrustZoneCtrlError>)
        ensures
            text_view(outcome) == after_device_read("unable to read encrypted_data: "@, read),
    {
        device_read_outcome("unable to read encrypted_data: ", read)
    }

    /// The command that derives a key from the secret `secret_oid` into `output_file`.
    pub fn derive_trustzone_key_command(
        &self,
        secret_oid: &str,
        hkdf_type: u16,
        info_file: &str,
        salt_file: &str,
        output_file: &str,
    ) -> (command: Vec<String>)
        ensures
            command.deep_view() == seq![
                "/MECHA_TEST/optiga_trust_m/trustm_hkdf"@,
                "-i"@,
                secret_oid@,
                "-H"@,
                hex_u16(hkdf_type),
                "-f"@,
                info_file@,
                "-s"@,
                salt_file@,
                "-o"@,
                output_file@,
            ],
    {
        let mut command: Vec<String> = Vec::new();
        command.push(word("/MECHA_TEST/optiga_trust_m/trustm_hkdf"));
        command.push(word("-i"));
        command.push(word(secret_oid));
        command.push(word("-H"));
        command.push(to_hex_u16(hkdf_type));
        command.push(word("-f"));
        command.push(word(info_file));
        command.push(word("-s"));
        command.push(word(salt_file));
        command.push(word("-o"));
        command.push(word(output_file));
        assert(command.deep_view() =~= seq![
            "/MECHA_TEST/optiga_trust_m/trustm_hkdf"@,
            "-i"@,
            secret_oid@,
            "-H"@,
            hex_u16(hkdf_type),
            "-f"@,
            info_file@,
            "-s"@,
            salt_file@,
            "-o"@,
            output_file@,
        ]);
        command
    }

    /// What deriving a key reports once the tool was run; where that is nothing, the
    /// output file is to be read next.
    pub fn derive_trustzone_key(&self, ran: Ran) -> (outcome: Result<(), TrustZoneCtrlError>)
        ensures
            unit_view(outcome) == derive_key_wording().after_run(true, ran),
    {
        run_outcome(
            TrustZoneCtrlErrorCodes::UnableToDeriveTrustZoneKey,
            "Error executing trustm_hkdf: ",
            "unable to derive key: ",
            true,
            ran,
        )
    }

    /// The derived key, from the outcome of reading the output file.
    pub fn derive_trustzone_key_output(&self, read: Result<String, String>) -> (outcome: Result<
        String,
        TrustZoneCtrlError,
    >)
        ensures
            text_view(outcome) == after_read(
                TrustZoneCtrlErrorCodes::UnableToDeriveTrustZoneKey,
                "unable to read derived key: "@,
                read,
            ),
    {
        read_outcome(
            TrustZoneCtrlErrorCodes::UnableToDeriveTrustZoneKey,
            "unable to read derived key: ",
            read,
        )
    }

    /// The command that computes the HMAC of `input_data` under the secret `secret_oid`
    /// into `output_file`.
    pub fn generate_trustzone_hmac_command(
        &self,
        secret_oid: &str,
        hmac_type: u16,
        input_data: &str,
        output_file: &str,
    ) -> (command: Vec<String>)
        ensures
            command.deep_view() == seq![
                "/MECHA_TEST/optiga_trust_m/trustm_hmac"@,
                "-I"@,
                secret_oid@,
                "-H"@,
                hex_u16(hmac_type),
                "-i"@,
                input_data@,
                "-o"@,
                output_file@,
            ],
    {
        let mut command: Vec<String> = Vec::new();
        command.push(word("/MECHA_TEST/optiga_trust_m/trustm_hmac"));
        command.push(word("-I"));
        command.push(word(secret_oid));
        command.push(word("-H"));
        command.push(to_hex_u16(hmac_type));
        command.push(word("-i"));
        command.push(word(input_data));
        command.push(word("-o"));
        command.push(word(output_file));
        assert(command.deep_view() =~= seq![
            "/MECHA_TEST/optiga_trust_m/trustm_hmac"@,
            "-I"@,
            secret_oid@,
            "-H"@,
            hex_u16(hmac_type),
            "-i"@,
            input_data@,
            "-o"@,
            output_file@,
        ]);
        command
    }

    /// What computing an HMAC reports once the tool was run; where that is nothing, the
    /// output file is to be read next.
    pub fn generate_trustzone_hmac(&self, ran: Ran) -> (outcome: Result<(), TrustZoneCtrlError>)
        ensures
            unit_view(outcome) == hmac_wording().after_run(true, ran),
    {
        run_outcome(
            TrustZoneCtrlErrorCodes::UnableToGenerateTrustZoneHMAC,
            "Error executing trustm_hmac: ",
            "unable to generate HMAC: ",
            true,
            ran,
        )
    }

    /// The HMAC, from the outcome of reading the output file.
    pub fn generate_trustzone_hmac_output(&self, read: Result<String, String>) -> (outcome: Result<
        String,
        TrustZoneCtrlError,
    >)
        ensures
            text_view(outcome) == after_read(
                TrustZoneCtrlErrorCodes::UnableToGenerateTrustZoneHMAC,
                "unable to read generated HMAC: "@,
                read,
            ),
    {
        read_outcome(
            TrustZoneCtrlErrorCodes::UnableToGenerateTrustZoneHMAC,
            "unable to read generated HMAC: ",
            read,
        )
    }
}

} // verus!
