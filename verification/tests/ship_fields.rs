//! Tests for the image ship field types.

use bcs_serial::command::{
    BlurImage, Compensation, DocumentFilter, EdgeSharpen, GammaCorrection, HistogramShip,
    HistogramStretch, ImageRotate, InfinityFilter, InvertImage, JpegImageQuality, NoiseReduction,
    PixelDepth, PixelShip, Protocol,
};
use bcs_serial::result::Error;

#[test]
fn blur_image_test_valid() {
    let cases = [(BlurImage::Off, "0V"), (BlurImage::On, "1V")];
    for (cmd, exp_ascii_cmd) in cases {
        assert_eq!(cmd.command(), exp_ascii_cmd);
        assert_eq!(BlurImage::try_from(exp_ascii_cmd), Ok(cmd));
    }
}

#[test]
fn compensation_test_valid() {
    let cases = [(Compensation::Disabled, "0C"), (Compensation::Enabled, "1C")];
    for (cmd, exp_ascii_cmd) in cases {
        assert_eq!(cmd.command(), exp_ascii_cmd);
        assert_eq!(Compensation::try_from(exp_ascii_cmd), Ok(cmd));
    }
}

#[test]
fn document_filter_test_valid() {
    for threshold in 0..=u8::MAX {
        let exp_threshold = DocumentFilter { threshold };

        assert_eq!(DocumentFilter::from_threshold(threshold), exp_threshold);
        assert_eq!(DocumentFilter::from(threshold), exp_threshold);
        assert_eq!(exp_threshold.threshold(), threshold);
    }
}

#[test]
fn edge_sharpen_test_valid() {
    for strength in 0..=24 {
        let exp_strength = EdgeSharpen { strength };

        assert_eq!(EdgeSharpen::try_from_strength(strength), Ok(exp_strength));
        assert_eq!(exp_strength.strength(), strength);
    }
}

#[test]
fn edge_sharpen_test_invalid() {
    for strength in 25..=u8::MAX {
        let err = Error::InvalidValue(strength as usize);

        assert_eq!(EdgeSharpen::try_from_strength(strength), Err(err));
        assert_eq!(EdgeSharpen::try_from(strength), Err(err));
    }
}

#[test]
fn gamma_correction_test_valid() {
    for factor in 0..=1000 {
        let exp_factor = GammaCorrection { factor };

        assert_eq!(GammaCorrection::try_from_factor(factor), Ok(exp_factor));
        assert_eq!(exp_factor.factor(), factor);
    }
}

#[test]
fn gamma_correction_test_invalid() {
    for factor in 1001..=u16::MAX {
        let err = Error::InvalidValue(factor as usize);

        assert_eq!(GammaCorrection::try_from_factor(factor), Err(err));
        assert_eq!(GammaCorrection::try_from(factor), Err(err));
    }
}

#[test]
fn histogram_ship_test_valid() {
    let cases = [(HistogramShip::Off, "0W"), (HistogramShip::On, "1W")];
    for (cmd, exp_ascii_cmd) in cases {
        assert_eq!(cmd.command(), exp_ascii_cmd);
        assert_eq!(HistogramShip::try_from(exp_ascii_cmd), Ok(cmd));
    }
}

#[test]
fn histogram_stretch_test_valid() {
    let cases = [(HistogramStretch::Off, "0H"), (HistogramStretch::On, "1H")];
    for (cmd, exp_ascii_cmd) in cases {
        assert_eq!(cmd.command(), exp_ascii_cmd);
        assert_eq!(HistogramStretch::try_from(exp_ascii_cmd), Ok(cmd));
    }
}

#[test]
fn image_rotate_test_valid() {
    let cases = [
        (ImageRotate::Degrees0, "0ir"),
        (ImageRotate::Degrees90, "1ir"),
        (ImageRotate::Degrees180, "2ir"),
        (ImageRotate::Degrees270, "3ir"),
    ];
    for (cmd, exp_ascii_cmd) in cases {
        assert_eq!(cmd.command(), exp_ascii_cmd);
        assert_eq!(ImageRotate::try_from(exp_ascii_cmd), Ok(cmd));
    }
}

#[test]
fn infinity_filter_test_valid() {
    let cases = [(InfinityFilter::Off, "0A"), (InfinityFilter::On, "1A")];
    for (cmd, exp_ascii_cmd) in cases {
        assert_eq!(cmd.command(), exp_ascii_cmd);
        assert_eq!(InfinityFilter::try_from(exp_ascii_cmd), Ok(cmd));
    }
}

#[test]
fn invert_image_test_valid() {
    let cases = [(InvertImage::X, "1ix"), (InvertImage::Y, "1iy")];
    for (cmd, exp_ascii_cmd) in cases {
        assert_eq!(cmd.command(), exp_ascii_cmd);
        assert_eq!(InvertImage::try_from(exp_ascii_cmd), Ok(cmd));
    }
}

#[test]
fn jpeg_image_quality_test_valid() {
    for quality in 0..=100 {
        let exp_quality = JpegImageQuality { quality };

        assert_eq!(JpegImageQuality::try_from_quality(quality), Ok(exp_quality));
        assert_eq!(exp_quality.quality(), quality);
    }
}

#[test]
fn jpeg_image_quality_test_invalid() {
    for quality in 101..=u8::MAX {
        let err = Error::InvalidValue(quality as usize);

        assert_eq!(JpegImageQuality::try_from_quality(quality), Err(err));
        assert_eq!(JpegImageQuality::try_from(quality), Err(err));
    }
}

#[test]
fn noise_reduction_test_valid() {
    let cases = [(NoiseReduction::Off, "0if"), (NoiseReduction::On, "1if")];
    for (cmd, exp_ascii_cmd) in cases {
        assert_eq!(cmd.command(), exp_ascii_cmd);
        assert_eq!(NoiseReduction::try_from(exp_ascii_cmd), Ok(cmd));
    }
}

#[test]
fn pixel_depth_test_valid() {
    let cases = [(PixelDepth::Bit8, "8D"), (PixelDepth::Bit1, "1D")];
    for (cmd, exp_ascii_cmd) in cases {
        assert_eq!(cmd.command(), exp_ascii_cmd);
        assert_eq!(PixelDepth::try_from(exp_ascii_cmd), Ok(cmd));
    }
}

#[test]
fn pixel_ship_test_valid() {
    let cases = [
        (PixelShip::Skip1, "1S"),
        (PixelShip::Skip2, "2S"),
        (PixelShip::Skip3, "3S"),
    ];
    for (cmd, exp_ascii_cmd) in cases {
        assert_eq!(cmd.command(), exp_ascii_cmd);
        assert_eq!(PixelShip::try_from(exp_ascii_cmd), Ok(cmd));
    }
}

#[test]
fn protocol_test_valid() {
    let cases = [
        (Protocol::Raw, "0P"),
        (Protocol::Usb, "2P"),
        (Protocol::HmodemCompressed, "3P"),
        (Protocol::Hmodem, "4P"),
    ];
    for (cmd, exp_ascii_cmd) in cases {
        assert_eq!(cmd.command(), exp_ascii_cmd);
        assert_eq!(Protocol::try_from(exp_ascii_cmd), Ok(cmd));
    }
}
