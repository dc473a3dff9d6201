//! Tests for the image snap field types.

use bcs_serial::command::{
    Beeper, DeltaForAcceptance, Exposure, Gain, ImagingStyle, TargetSetPoint, TargetWhiteValue,
    UpdateTries, WaitForTrigger, LED,
};
use bcs_serial::result::Error;

#[test]
fn beeper_test_valid() {
    let cases = [(Beeper::Off, "0B"), (Beeper::On, "1B")];
    for (cmd, exp_ascii_cmd) in cases {
        assert_eq!(cmd.command(), exp_ascii_cmd);
        assert_eq!(Beeper::try_from(exp_ascii_cmd), Ok(cmd));
    }
}

#[test]
fn delta_for_acceptance_test_valid() {
    for delta in 0..=u8::MAX {
        let exp_delta = DeltaForAcceptance { delta };

        assert_eq!(DeltaForAcceptance::from_delta(delta), exp_delta);
        assert_eq!(exp_delta.delta(), delta);
    }
}

#[test]
fn exposure_test_valid() {
    let units_range = 1..=10_000_000u32;
    let ms_range = (127..=1_270_000_000u32).step_by(127);
    for (units, ms) in units_range.zip(ms_range) {
        let exp_exposure = Exposure { units };

        assert_eq!(Exposure::try_from_unit(units), Ok(exp_exposure));
        assert_eq!(Exposure::try_from_ms(ms), Ok(exp_exposure));
        assert_eq!(exp_exposure.units(), units);
        assert_eq!(exp_exposure.ms(), ms);
    }
}

#[test]
fn exposure_test_invalid() {
    let max = 10_000_000u32;
    for units in [0]
        .into_iter()
        .chain((max + 1)..=(max + 1024))
        .chain([u32::MAX])
    {
        assert_eq!(Exposure::try_from_unit(units), Err(Error::InvalidVariant));
        assert_eq!(
            Exposure::try_from_ms(units.saturating_mul(127)),
            Err(Error::InvalidVariant)
        );
    }
}

#[test]
fn gain_test_valid() {
    let cases = [
        (Gain::Off, "1G"),
        (Gain::Medium, "2G"),
        (Gain::Heavy, "4G"),
        (Gain::Max, "8G"),
    ];
    for (cmd, exp_ascii_cmd) in cases {
        assert_eq!(cmd.command(), exp_ascii_cmd);
        assert_eq!(Gain::try_from(exp_ascii_cmd), Ok(cmd));
    }
}

#[test]
fn imaging_style_test_valid() {
    let cases = [
        (ImagingStyle::Decoding, "0P"),
        (ImagingStyle::Photo, "1P"),
        (ImagingStyle::Manual, "2P"),
    ];
    for (cmd, exp_ascii_cmd) in cases {
        assert_eq!(cmd.command(), exp_ascii_cmd);
        assert_eq!(ImagingStyle::try_from(exp_ascii_cmd), Ok(cmd));
    }
}

#[test]
fn led_test_valid() {
    let cases = [(LED::Off, "0L"), (LED::On, "1L")];
    for (cmd, exp_ascii_cmd) in cases {
        assert_eq!(cmd.command(), exp_ascii_cmd);
        assert_eq!(LED::try_from(exp_ascii_cmd), Ok(cmd));
    }
}

#[test]
fn target_set_point_test_valid() {
    for percentage in 1..=99 {
        let exp_percentage = TargetSetPoint { percentage };

        assert_eq!(
            TargetSetPoint::try_from_percentage(percentage),
            Ok(exp_percentage)
        );
        assert_eq!(exp_percentage.percentage(), percentage);
    }
}

#[test]
fn target_set_point_test_invalid() {
    for percentage in [0].into_iter().chain(100..=u8::MAX) {
        assert_eq!(
            TargetSetPoint::try_from_percentage(percentage),
            Err(Error::InvalidValue(percentage as usize))
        );
    }
}

#[test]
fn target_white_value_test_valid() {
    for value in 0..=u8::MAX {
        let exp_value = TargetWhiteValue { value };

        assert_eq!(TargetWhiteValue::from_value(value), exp_value);
        assert_eq!(exp_value.value(), value);
    }
}

#[test]
fn update_tries_test_valid() {
    for tries in 0..=10 {
        let exp_tries = UpdateTries { tries };

        assert_eq!(UpdateTries::try_from_tries(tries), Ok(exp_tries));
        assert_eq!(exp_tries.tries(), tries);
    }
}

#[test]
fn update_tries_test_invalid() {
    for tries in 11..=u8::MAX {
        assert_eq!(
            UpdateTries::try_from_tries(tries),
            Err(Error::InvalidValue(tries as usize))
        );
    }
}

#[test]
fn wait_for_trigger_test_valid() {
    let cases = [(WaitForTrigger::NoWait, "0T"), (WaitForTrigger::Wait, "1T")];
    for (cmd, exp_ascii_cmd) in cases {
        assert_eq!(cmd.command(), exp_ascii_cmd);
        assert_eq!(WaitForTrigger::try_from(exp_ascii_cmd), Ok(cmd));
    }
}
