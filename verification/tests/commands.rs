//! Tests for the top-level serial command types.

use bcs_serial::command::{
    AllSymbologies, ManualTriggerMode, MobilePhoneReadMode, PDF417, QRCode, QueryCommand,
    SerialTriggerMode, SoftwareRevision, Trigger, MAX_SERIAL_TRIGGER,
};

#[test]
fn manual_trigger_test_valid() {
    let cases = [
        (ManualTriggerMode::Normal, "PAPHHF"),
        (ManualTriggerMode::Enhanced, "PAPHHS"),
    ];
    for (cmd, exp_ascii_cmd) in cases {
        assert_eq!(cmd.command(), exp_ascii_cmd);
        assert_eq!(ManualTriggerMode::try_from(exp_ascii_cmd), Ok(cmd));
    }
}

#[test]
fn mobile_phone_test_valid() {
    let cases = [
        (MobilePhoneReadMode::HandheldScanning, "PAPHHC"),
        (MobilePhoneReadMode::StreamingPresentation, "PAPSPC"),
    ];
    for (cmd, exp_ascii_cmd) in cases {
        assert_eq!(cmd.command(), exp_ascii_cmd);
        assert_eq!(MobilePhoneReadMode::try_from(exp_ascii_cmd), Ok(cmd));
    }
}

#[test]
fn pdf_test_valid() {
    let cases = [
        (PDF417::DefaultSettings, "PDFDFT"),
        (PDF417::Off, "PDFENA0"),
        (PDF417::On, "PDFENA1"),
    ];
    for (cmd, exp_ascii_cmd) in cases {
        assert_eq!(cmd.command(), exp_ascii_cmd);
        assert_eq!(PDF417::try_from(exp_ascii_cmd), Ok(cmd));
    }
}

#[test]
fn qr_test_valid() {
    let cases = [
        (QRCode::DefaultSettings, "QRCDFT"),
        (QRCode::Off, "QRCENA0"),
        (QRCode::On, "QRCENA1"),
    ];
    for (cmd, exp_ascii_cmd) in cases {
        assert_eq!(cmd.command(), exp_ascii_cmd);
        assert_eq!(QRCode::try_from(exp_ascii_cmd), Ok(cmd));
    }
}

#[test]
fn query_test_valid() {
    let cases = [
        (QueryCommand::DefaultValue, "^"),
        (QueryCommand::CurrentValue, "?"),
        (QueryCommand::RangeValue, "*"),
    ];
    for (cmd, exp_ascii) in cases {
        assert_eq!(cmd.command(), exp_ascii);
    }
}

#[test]
fn serial_trigger_test_valid() {
    for ms in 0..=MAX_SERIAL_TRIGGER {
        let exp_cmd = SerialTriggerMode { ms };
        let exp_ascii_cmd = format!("TRGSTO{ms}");

        assert_eq!(SerialTriggerMode::try_from_ms(ms), Ok(exp_cmd));
        assert_eq!(exp_cmd.command(), exp_ascii_cmd);
        assert_eq!(
            SerialTriggerMode::try_from(exp_ascii_cmd.as_str()),
            Ok(exp_cmd)
        );
    }
}

#[test]
fn software_rev_test_valid() {
    let cmd = SoftwareRevision::new();
    let exp_ascii_cmd = "REVINF";

    assert_eq!(cmd.command(), exp_ascii_cmd);
    assert_eq!(SoftwareRevision::try_from(exp_ascii_cmd), Ok(cmd));
}

#[test]
fn symbologies_test_valid() {
    let cases = [(AllSymbologies::Off, "ALLENA0"), (AllSymbologies::On, "ALLENA1")];
    for (cmd, exp_ascii_cmd) in cases {
        assert_eq!(cmd.command(), exp_ascii_cmd);
        assert_eq!(AllSymbologies::try_from(exp_ascii_cmd), Ok(cmd));
    }
}

#[test]
fn trigger_test_valid() {
    let cases = [
        (Trigger::Activate, "\x16T\x0d"),
        (Trigger::Deactivate, "\x16U\x0d"),
    ];
    for (cmd, exp_ascii_cmd) in cases {
        assert_eq!(cmd.command(), exp_ascii_cmd);
        assert_eq!(Trigger::try_from(exp_ascii_cmd), Ok(cmd));
    }
}
