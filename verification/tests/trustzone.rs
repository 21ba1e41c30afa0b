use mecha_sdk::trustzone_ctrl::errors::{TrustZoneCtrlError, TrustZoneCtrlErrorCodes};
use mecha_sdk::trustzone_ctrl::trust_ctrl::{KeySize, KeyType, Ran, TrustZoneCtrl};

fn exited(success: bool) -> Ran {
    Ran::Exited {
        success,
        status: if success { "exit status: 0".to_string() } else { "exit status: 1".to_string() },
    }
}

fn not_started() -> Ran {
    Ran::NotStarted("No such file or directory (os error 2)".to_string())
}

#[test]
fn trust_chip_commands() {
    let chip = TrustZoneCtrl::new();
    assert_eq!(chip.path, "/MECHA_TEST/optiga_trust_m");
    assert_eq!(TrustZoneCtrl::default().path, "");
    assert_eq!(
        chip.read_trustzone_cert_command("/tmp/cert.pem", "0xe0e0"),
        vec!["/MECHA_TEST/optiga_trust_m/trustm_cert", "-r", "0xe0e0", "-o", "/tmp/cert.pem"]
    );
    assert_eq!(
        chip.write_trustzone_cert_command("/tmp/cert.pem", "0xe0e1"),
        vec!["/MECHA_TEST/optiga_trust_m/trustm_cert", "-w", "0xe0e1", "-i", "/tmp/cert.pem"]
    );
    assert_eq!(
        chip.remove_trustzone_cert_command("0xe0e1"),
        vec!["/MECHA_TEST/optiga_trust_m/trustm_cert", "-c", "0xe0e1"]
    );
    assert_eq!(
        chip.generate_trustzone_key_command("0xe0f1", KeyType::Sign, KeySize::BRAINPOOL384, "/tmp/pub.pem"),
        vec![
            "/MECHA_TEST/optiga_trust_m/trustm_ecc_keygen",
            "-g", "0xe0f1", "-t", "0x10", "-k", "0x15", "-o", "/tmp/pub.pem"
        ]
    );
    assert_eq!(
        chip.sign_trustzone_data_command("0xe0f1", "/tmp/in", "/tmp/sig", false),
        vec!["/MECHA_TEST/optiga_trust_m/trustm_ecc_sign", "-k", "0xe0f1", "-o", "/tmp/sig", "-i", "/tmp/in"]
    );
    assert_eq!(
        chip.sign_trustzone_data_command("0xe0f1", "/tmp/in", "/tmp/sig", true),
        vec!["/MECHA_TEST/optiga_trust_m/trustm_ecc_sign", "-k", "0xe0f1", "-o", "/tmp/sig", "-i", "/tmp/in", "-H"]
    );
    assert_eq!(
        chip.verify_trustzone_data_command("/tmp/pub", "/tmp/in", "/tmp/sig", true),
        vec!["/MECHA_TEST/optiga_trust_m/trustm_ecc_verify", "-p", "/tmp/pub", "-i", "/tmp/in", "-s", "/tmp/sig", "-H"]
    );
    assert_eq!(
        chip.verify_trustzone_data_command("/tmp/pub", "/tmp/in", "/tmp/sig", false).len(),
        7
    );
    assert_eq!(
        chip.derive_trustzone_key_command("0xf1d0", 0x2001, "/tmp/info", "/tmp/salt", "/tmp/key"),
        vec![
            "/MECHA_TEST/optiga_trust_m/trustm_hkdf",
            "-i", "0xf1d0", "-H", "0x2001", "-f", "/tmp/info", "-s", "/tmp/salt", "-o", "/tmp/key"
        ]
    );
    assert_eq!(
        chip.generate_trustzone_hmac_command("0xf1d0", 0x20, "/tmp/in", "/tmp/mac"),
        vec!["/MECHA_TEST/optiga_trust_m/trustm_hmac", "-I", "0xf1d0", "-H", "0x0020", "-i", "/tmp/in", "-o", "/tmp/mac"]
    );
    assert_eq!(chip.encrypt_device(), "/dev/trustzone_encrypt");
    assert_eq!(chip.decrypt_device(), "/dev/trustzone_decrypt");
}

#[test]
fn key_flags_cover_every_kind() {
    let chip = TrustZoneCtrl::new();
    let types = [
        (KeyType::Auth, "0x01"), (KeyType::Enc, "0x02"), (KeyType::HFWU, "0x04"),
        (KeyType::DevM, "0x08"), (KeyType::Sign, "0x10"), (KeyType::Agmt, "0x20"),
    ];
    let sizes = [
        (KeySize::ECC256, "0x03"), (KeySize::ECC384, "0x04"), (KeySize::ECC521, "0x05"),
        (KeySize::BRAINPOOL256, "0x13"), (KeySize::BRAINPOOL384, "0x15"), (KeySize::BRAINPOOL512, "0x16"),
    ];
    for (code, ((key_type, type_flag), (key_size, size_flag))) in types.iter().zip(sizes.iter()).enumerate() {
        let command = chip.generate_trustzone_key_command("oid", *key_type, *key_size, "out");
        assert_eq!(command[4], *type_flag);
        assert_eq!(command[6], *size_flag);
        assert_eq!(KeyType::from_code(code as i32), Some(*key_type));
        assert_eq!(KeySize::from_code(code as i32), Some(*key_size));
    }
    assert_eq!(KeyType::from_code(6), None);
    assert_eq!(KeySize::from_code(-1), None);
}

#[test]
fn tool_that_could_not_start_is_wrapped_twice() {
    let chip = TrustZoneCtrl::new();
    let error = chip.write_trustzone_cert(not_started()).unwrap_err();
    assert_eq!(error.code, TrustZoneCtrlErrorCodes::UnableToWriteTrustZoneCert);
    assert_eq!(
        error.message,
        "unable to write cert: (code: UnableToWriteTrustZoneCert, message: Error executing trustm_cert: No such file or directory (os error 2))"
    );
    let error = chip.read_trustzone_cert(not_started()).unwrap_err();
    assert_eq!(
        error.message,
        "unable to read cert: (code: UnableToReadTrustZoneCert, message: Error executing trustm_cert: No such file or directory (os error 2))"
    );
    let error = chip.generate_trustzone_hmac(not_started()).unwrap_err();
    assert_eq!(error.code, TrustZoneCtrlErrorCodes::UnableToGenerateTrustZoneHMAC);
    assert!(error.message.starts_with("unable to generate HMAC: (code: UnableToGenerateTrustZoneHMAC, message: Error executing trustm_hmac: "));
}

#[test]
fn exit_status_decides() {
    let chip = TrustZoneCtrl::new();
    assert!(chip.read_trustzone_cert(exited(true)).is_ok());
    assert!(chip.read_trustzone_cert(exited(false)).is_ok());
    assert!(chip.write_trustzone_cert(exited(true)).is_ok());
    let error = chip.write_trustzone_cert(exited(false)).unwrap_err();
    assert_eq!(error.message, "unable to write cert: exit status: 1");
    assert!(chip.remove_trustzone_cert(exited(true)).is_ok());
    let error = chip.remove_trustzone_cert(exited(false)).unwrap_err();
    assert_eq!(error.code, TrustZoneCtrlErrorCodes::UnableToRemoveTrustZoneCert);
    assert_eq!(error.message, "unable to remove cert: exit status: 1");
    assert!(chip.generate_trustzone_key(exited(true)).is_ok());
    assert_eq!(chip.generate_trustzone_key(exited(false)).unwrap_err().message, "unable to generate key: exit status: 1");
    assert!(chip.sign_trustzone_data(exited(true)).is_ok());
    assert_eq!(chip.sign_trustzone_data(exited(false)).unwrap_err().message, "unable to sign data: exit status: 1");
    assert_eq!(chip.verify_trustzone_data(exited(true)).unwrap(), "Verify Success.");
    let error = chip.verify_trustzone_data(exited(false)).unwrap_err();
    assert_eq!(error.code, TrustZoneCtrlErrorCodes::UnableToVerifyTrustZoneData);
    assert_eq!(error.message, "unable to verify data: exit status: 1");
    assert!(chip.derive_trustzone_key(exited(true)).is_ok());
    assert_eq!(chip.derive_trustzone_key(exited(false)).unwrap_err().message, "unable to derive key: exit status: 1");
    assert!(chip.generate_trustzone_hmac(exited(true)).is_ok());
    assert_eq!(chip.generate_trustzone_hmac(exited(false)).unwrap_err().message, "unable to generate HMAC: exit status: 1");
}

#[test]
fn output_files_give_the_result() {
    let chip = TrustZoneCtrl::new();
    assert_eq!(chip.read_trustzone_cert_output(Ok("CERT".to_string())).unwrap(), "CERT");
    assert_eq!(chip.read_trustzone_cert_output(Err("gone".to_string())).unwrap_err().message, "unable to read cert: gone");
    assert_eq!(chip.generate_trustzone_key_output(Ok("PUB".to_string())).unwrap(), "PUB");
    let error = chip.generate_trustzone_key_output(Err("gone".to_string())).unwrap_err();
    assert_eq!(error.code, TrustZoneCtrlErrorCodes::UnableToGenerateTrustZoneKey);
    assert_eq!(error.message, "unable to read public key: gone");
    assert_eq!(chip.sign_trustzone_data_output(Ok("SIG".to_string())).unwrap(), "SIG");
    assert_eq!(chip.sign_trustzone_data_output(Err("gone".to_string())).unwrap_err().message, "unable to read signed data: gone");
    assert_eq!(chip.derive_trustzone_key_output(Ok("KEY".to_string())).unwrap(), "KEY");
    assert_eq!(chip.derive_trustzone_key_output(Err("gone".to_string())).unwrap_err().message, "unable to read derived key: gone");
    assert_eq!(chip.generate_trustzone_hmac_output(Ok("MAC".to_string())).unwrap(), "MAC");
    assert_eq!(chip.generate_trustzone_hmac_output(Err("gone".to_string())).unwrap_err().message, "unable to read generated HMAC: gone");
}

#[test]
fn device_files_give_the_cipher_text() {
    let chip = TrustZoneCtrl::new();
    assert_eq!(chip.encrypt_trustzone_data("plain", Ok("cipher".to_string())).unwrap(), "cipher");
    assert_eq!(chip.decrypt_trustzone_data("cipher", Ok("plain".to_string())).unwrap(), "plain");
    assert_eq!(chip.encrypt_trustzone_data_with_key("plain", "key", Ok("cipher".to_string())).unwrap(), "cipher");
    let error = chip.encrypt_trustzone_data("plain", Err("gone".to_string())).unwrap_err();
    assert_eq!(error.code, TrustZoneCtrlErrorCodes::UnableToReadTrustZoneCert);
    assert_eq!(error.message, "unable to read encrypted_data: (code: FileReadError, message: gone)");
    let error = chip.decrypt_trustzone_data("cipher", Err("gone".to_string())).unwrap_err();
    assert_eq!(error.message, "unable to read decrypted_data: (code: FileReadError, message: gone)");
    let error = chip.encrypt_trustzone_data_with_key("plain", "key", Err("gone".to_string())).unwrap_err();
    assert_eq!(error.message, "unable to read encrypted_data: (code: FileReadError, message: gone)");
    let error = TrustZoneCtrlError::new(TrustZoneCtrlErrorCodes::UnableToGenrateToken, "t".to_string());
    assert_eq!(error.to_string(), "(code: UnableToGenrateToken, message: t)");
}
