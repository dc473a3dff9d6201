//! End-to-end scenarios: concrete encodings, range rejection, defaults,
//! prefix enforcement, and full command lines.

use bcs_serial::command::{
    AllSymbologies, Beeper, Command, EdgeSharpen, Exposure, ImageShip, ImageSnap, ImagingStyle,
    JpegImageQuality, QueryCommand, SerialCommand, SerialTriggerMode,
};
use bcs_serial::result::Error;

#[test]
fn edge_sharpen_scenario() {
    let sharpen = EdgeSharpen::try_from_strength(24).unwrap();
    assert_eq!(sharpen.command(), "24E");
    assert_eq!(EdgeSharpen::parse("IMGSHP24E"), Ok(sharpen));
    assert_eq!(
        EdgeSharpen::try_from_strength(25),
        Err(Error::InvalidValue(25))
    );
}

#[test]
fn image_snap_exposure_scenario() {
    let cmd = ImageSnap::new()
        .with_exposure(Exposure::try_from_unit(100).unwrap())
        .command();
    assert_eq!(cmd, "IMGSNP100E");
}

#[test]
fn jpeg_image_quality_default_scenario() {
    assert_eq!(JpegImageQuality::default().command(), "50J");
}

#[test]
fn symbologies_scenario() {
    assert_eq!(AllSymbologies::On.command(), "ALLENA1");
    assert_eq!(AllSymbologies::try_from("ALLENA1"), Ok(AllSymbologies::On));
}

#[test]
fn exposure_ms_scenario() {
    assert_eq!(
        Exposure::try_from_ms(127),
        Ok(Exposure::try_from_unit(1).unwrap())
    );
    assert_eq!(Exposure::try_from_ms(126), Err(Error::InvalidVariant));
}

#[test]
fn full_command_scenario() {
    let cmd = Command::new()
        .with_serial(SerialCommand::AllSymbologies(AllSymbologies::On))
        .with_query(QueryCommand::CurrentValue);
    assert_eq!(cmd.command(), "ALLENA1?.");
}

#[test]
fn full_command_without_query() {
    assert_eq!(Command::new().command(), "ALLENA0.");
    let cmd = Command::new().with_serial(SerialCommand::ImageSnap(
        ImageSnap::new().with_beeper(Beeper::On),
    ));
    assert_eq!(cmd.command(), "IMGSNP1B.");
}

#[test]
fn group_prefix_enforcement() {
    assert_eq!(ImageSnap::try_from("XMGSNP1P"), Err(Error::InvalidVariant));
    assert_eq!(ImageSnap::try_from(""), Err(Error::InvalidVariant));
    assert_eq!(ImageSnap::try_from("1P0B"), Err(Error::InvalidVariant));
    assert_eq!(ImageShip::try_from("IMGSNP0A"), Err(Error::InvalidVariant));
}

#[test]
fn group_set_order_is_irrelevant() {
    let mut first = ImageSnap::new();
    first.set_imaging_style(ImagingStyle::Manual);
    first.set_beeper(Beeper::On);

    let mut second = ImageSnap::new();
    second.set_beeper(Beeper::On);
    second.set_imaging_style(ImagingStyle::Manual);

    assert_eq!(first, second);
    assert_eq!(first.command(), second.command());
    assert_eq!(first.command(), "IMGSNP2P1B");
}

#[test]
fn group_partial_parse_tolerance() {
    let bare = ImageSnap::try_from("IMGSNP").unwrap();
    assert_eq!(bare, ImageSnap::new());

    let one = ImageSnap::try_from("IMGSNP1B").unwrap();
    assert_eq!(one, ImageSnap::new().with_beeper(Beeper::On));

    let garbled = ImageSnap::try_from("IMGSNPzz9").unwrap();
    assert_eq!(garbled, ImageSnap::new());
}

#[test]
fn error_constructors() {
    assert_eq!(Error::new(), Error::InvalidVariant);
    assert_eq!(Error::default(), Error::InvalidVariant);
}

#[test]
fn field_parse_rejects_unknown_fragment() {
    assert_eq!(Beeper::try_from("zz"), Err(Error::InvalidVariant));
    assert_eq!(EdgeSharpen::parse("IMGSHP"), Err(Error::InvalidVariant));
    assert_eq!(EdgeSharpen::parse("E"), Err(Error::InvalidVariant));
    assert_eq!(EdgeSharpen::parse("99E"), Err(Error::InvalidVariant));
}

#[test]
fn serial_trigger_scenario() {
    let cmd = SerialTriggerMode::try_from_ms(90).unwrap();
    assert_eq!(cmd.command(), "TRGSTO90");
    assert_eq!(cmd.into_ms(), 90);
    assert_eq!(
        SerialTriggerMode::try_from_ms(300_001),
        Err(Error::InvalidValue(300_001))
    );
    assert_eq!(
        SerialTriggerMode::try_from("TRGSTO12x"),
        Err(Error::InvalidVariant)
    );
}

#[test]
fn exposure_ms_round_values() {
    assert_eq!(Exposure::max_ms_gen6(), 999_998);
    assert_eq!(Exposure::max_ms_gen7(), 1_270_000_000);
    assert_eq!(Exposure::try_from_unit(2).unwrap().ms(), 254);
    // A millisecond count between unit boundaries is divided down.
    assert_eq!(Exposure::try_from_ms(200).unwrap().units(), 1);
}

#[test]
fn numeric_parse_scans_back_to_delimiter() {
    // The digits of a numeric field run from the character after the nearest
    // delimiter up to the field's suffix, so neighbouring fields do not bleed
    // into each other.
    let snap = ImageSnap::try_from("IMGSNP125W25D").unwrap();
    assert_eq!(
        snap,
        ImageSnap::new()
            .with_target_white_value(125.into())
            .with_delta_for_acceptance(25.into())
    );
}
