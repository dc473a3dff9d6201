//! Tests for the modifier command groups.

use bcs_serial::command::{
    Beeper, BlurImage, Compensation, DeltaForAcceptance, DocumentFilter, Exposure, Gain,
    GammaCorrection, HistogramShip, HistogramStretch, ImageRotate, ImageShip, ImageSnap,
    ImagingStyle, InfinityFilter, InvertImage, JpegImageQuality, NoiseReduction, PixelDepth,
    PixelShip, Protocol, TargetSetPoint, TargetWhiteValue, UpdateTries, WaitForTrigger, LED,
};

#[test]
fn image_snap_test_valid() {
    let exp_imaging_style = ImagingStyle::new();
    let exp_beeper = Beeper::new();
    let exp_wait_for_trigger = WaitForTrigger::new();
    let exp_led = LED::new();
    let exp_exposure = Exposure::new();
    let exp_gain = Gain::new();
    let exp_target_white_value = TargetWhiteValue::new();
    let exp_delta_for_acceptance = DeltaForAcceptance::new();
    let exp_update_tries = UpdateTries::new();
    let exp_target_set_point = TargetSetPoint::new();

    let fragments = [
        "",
        "1P",
        "0B",
        "0T",
        "0L",
        "7874E",
        "1G",
        "125W",
        "25D",
        "6U",
        "50%",
        "1P0B0T0L7874E1G125W25D6U50%",
    ];
    let expected = [
        ImageSnap::new(),
        ImageSnap::new().with_imaging_style(exp_imaging_style),
        ImageSnap::new().with_beeper(exp_beeper),
        ImageSnap::new().with_wait_for_trigger(exp_wait_for_trigger),
        ImageSnap::new().with_led(exp_led),
        ImageSnap::new().with_exposure(exp_exposure),
        ImageSnap::new().with_gain(exp_gain),
        ImageSnap::new().with_target_white_value(exp_target_white_value),
        ImageSnap::new().with_delta_for_acceptance(exp_delta_for_acceptance),
        ImageSnap::new().with_update_tries(exp_update_tries),
        ImageSnap::new().with_target_set_point(exp_target_set_point),
        ImageSnap::new()
            .with_imaging_style(exp_imaging_style)
            .with_beeper(exp_beeper)
            .with_wait_for_trigger(exp_wait_for_trigger)
            .with_led(exp_led)
            .with_exposure(exp_exposure)
            .with_gain(exp_gain)
            .with_target_white_value(exp_target_white_value)
            .with_delta_for_acceptance(exp_delta_for_acceptance)
            .with_update_tries(exp_update_tries)
            .with_target_set_point(exp_target_set_point),
    ];

    for (s, exp_img_snap) in fragments.into_iter().zip(expected) {
        let img_str = format!("IMGSNP{s}");
        assert_eq!(ImageSnap::try_from(img_str.as_str()), Ok(exp_img_snap));
        assert_eq!(exp_img_snap.command(), img_str);
    }

    let mut img = ImageSnap::new();

    assert!(img.imaging_style().is_none());
    img.set_imaging_style(exp_imaging_style);
    assert_eq!(img.imaging_style(), Some(exp_imaging_style));
    img.unset_imaging_style();
    assert!(img.imaging_style().is_none());

    assert!(img.beeper().is_none());
    img.set_beeper(exp_beeper);
    assert_eq!(img.beeper(), Some(exp_beeper));
    img.unset_beeper();
    assert!(img.beeper().is_none());

    assert!(img.wait_for_trigger().is_none());
    img.set_wait_for_trigger(exp_wait_for_trigger);
    assert_eq!(img.wait_for_trigger(), Some(exp_wait_for_trigger));
    img.unset_wait_for_trigger();
    assert!(img.wait_for_trigger().is_none());

    assert!(img.led().is_none());
    img.set_led(exp_led);
    assert_eq!(img.led(), Some(exp_led));
    img.unset_led();
    assert!(img.led().is_none());

    assert!(img.exposure().is_none());
    img.set_exposure(exp_exposure);
    assert_eq!(img.exposure(), Some(exp_exposure));
    img.unset_exposure();
    assert!(img.exposure().is_none());

    assert!(img.gain().is_none());
    img.set_gain(exp_gain);
    assert_eq!(img.gain(), Some(exp_gain));
    img.unset_gain();
    assert!(img.gain().is_none());

    assert!(img.target_white_value().is_none());
    img.set_target_white_value(exp_target_white_value);
    assert_eq!(img.target_white_value(), Some(exp_target_white_value));
    img.unset_target_white_value();
    assert!(img.target_white_value().is_none());

    assert!(img.delta_for_acceptance().is_none());
    img.set_delta_for_acceptance(exp_delta_for_acceptance);
    assert_eq!(img.delta_for_acceptance(), Some(exp_delta_for_acceptance));
    img.unset_delta_for_acceptance();
    assert!(img.delta_for_acceptance().is_none());

    assert!(img.update_tries().is_none());
    img.set_update_tries(exp_update_tries);
    assert_eq!(img.update_tries(), Some(exp_update_tries));
    img.unset_update_tries();
    assert!(img.update_tries().is_none());

    assert!(img.target_set_point().is_none());
    img.set_target_set_point(exp_target_set_point);
    assert_eq!(img.target_set_point(), Some(exp_target_set_point));
    img.unset_target_set_point();
    assert!(img.target_set_point().is_none());
}

#[test]
fn image_ship_test_valid() {
    let exp_infinity_filter = InfinityFilter::new();
    let exp_compensation = Compensation::new();
    let exp_pixel_depth = PixelDepth::new();
    let exp_histogram_stretch = HistogramStretch::new();
    let exp_invert_image = InvertImage::new();
    let exp_noise_reduction = NoiseReduction::new();
    let exp_image_rotate = ImageRotate::new();
    let exp_jpeg_image_quality = JpegImageQuality::new();
    let exp_gamma_correction = GammaCorrection::new();
    let exp_protocol = Protocol::new();
    let exp_pixel_ship = PixelShip::new();
    let exp_document_filter = DocumentFilter::new();
    let exp_blur_image = BlurImage::new();
    let exp_histogram_ship = HistogramShip::new();
    let prefix = ImageShip::prefix();

    let fragments = [
        "", "0A", "0C", "8D", "0H", "1ix", "0if", "0ir", "50J", "0K", "0P", "1S", "0U", "0V",
        "0W",
    ];
    let expected = [
        ImageShip::new(),
        ImageShip::new().with_infinity_filter(exp_infinity_filter),
        ImageShip::new().with_compensation(exp_compensation),
        ImageShip::new().with_pixel_depth(exp_pixel_depth),
        ImageShip::new().with_histogram_stretch(exp_histogram_stretch),
        ImageShip::new().with_invert_image(exp_invert_image),
        ImageShip::new().with_noise_reduction(exp_noise_reduction),
        ImageShip::new().with_image_rotate(exp_image_rotate),
        ImageShip::new().with_jpeg_image_quality(exp_jpeg_image_quality),
        ImageShip::new().with_gamma_correction(exp_gamma_correction),
        ImageShip::new().with_protocol(exp_protocol),
        ImageShip::new().with_pixel_ship(exp_pixel_ship),
        ImageShip::new().with_document_filter(exp_document_filter),
        ImageShip::new().with_blur_image(exp_blur_image),
        ImageShip::new().with_histogram_ship(exp_histogram_ship),
    ];

    for (s, exp_img_ship) in fragments.into_iter().zip(expected) {
        let img_str = format!("{prefix}{s}");
        assert_eq!(ImageShip::try_from(img_str.as_str()), Ok(exp_img_ship));
        assert_eq!(exp_img_ship.command(), img_str);
    }

    let mut img = ImageShip::new();

    assert!(img.infinity_filter().is_none());
    img.set_infinity_filter(exp_infinity_filter);
    assert_eq!(img.infinity_filter(), Some(exp_infinity_filter));
    img.unset_infinity_filter();
    assert!(img.infinity_filter().is_none());

    assert!(img.compensation().is_none());
    img.set_compensation(exp_compensation);
    assert_eq!(img.compensation(), Some(exp_compensation));
    img.unset_compensation();
    assert!(img.compensation().is_none());

    assert!(img.pixel_depth().is_none());
    img.set_pixel_depth(exp_pixel_depth);
    assert_eq!(img.pixel_depth(), Some(exp_pixel_depth));
    img.unset_pixel_depth();
    assert!(img.pixel_depth().is_none());

    assert!(img.histogram_stretch().is_none());
    img.set_histogram_stretch(exp_histogram_stretch);
    assert_eq!(img.histogram_stretch(), Some(exp_histogram_stretch));
    img.unset_histogram_stretch();
    assert!(img.histogram_stretch().is_none());

    assert!(img.invert_image().is_none());
    img.set_invert_image(exp_invert_image);
    assert_eq!(img.invert_image(), Some(exp_invert_image));
    img.unset_invert_image();
    assert!(img.invert_image().is_none());

    assert!(img.noise_reduction().is_none());
    img.set_noise_reduction(exp_noise_reduction);
    assert_eq!(img.noise_reduction(), Some(exp_noise_reduction));
    img.unset_noise_reduction();
    assert!(img.noise_reduction().is_none());

    assert!(img.image_rotate().is_none());
    img.set_image_rotate(exp_image_rotate);
    assert_eq!(img.image_rotate(), Some(exp_image_rotate));
    img.unset_image_rotate();
    assert!(img.image_rotate().is_none());

    assert!(img.jpeg_image_quality().is_none());
    img.set_jpeg_image_quality(exp_jpeg_image_quality);
    assert_eq!(img.jpeg_image_quality(), Some(exp_jpeg_image_quality));
    img.unset_jpeg_image_quality();
    assert!(img.jpeg_image_quality().is_none());

    assert!(img.gamma_correction().is_none());
    img.set_gamma_correction(exp_gamma_correction);
    assert_eq!(img.gamma_correction(), Some(exp_gamma_correction));
    img.unset_gamma_correction();
    assert!(img.gamma_correction().is_none());

    assert!(img.protocol().is_none());
    img.set_protocol(exp_protocol);
    assert_eq!(img.protocol(), Some(exp_protocol));
    img.unset_protocol();
    assert!(img.protocol().is_none());

    assert!(img.pixel_ship().is_none());
    img.set_pixel_ship(exp_pixel_ship);
    assert_eq!(img.pixel_ship(), Some(exp_pixel_ship));
    img.unset_pixel_ship();
    assert!(img.pixel_ship().is_none());

    assert!(img.document_filter().is_none());
    img.set_document_filter(exp_document_filter);
    assert_eq!(img.document_filter(), Some(exp_document_filter));
    img.unset_document_filter();
    assert!(img.document_filter().is_none());

    assert!(img.blur_image().is_none());
    img.set_blur_image(exp_blur_image);
    assert_eq!(img.blur_image(), Some(exp_blur_image));
    img.unset_blur_image();
    assert!(img.blur_image().is_none());

    assert!(img.histogram_ship().is_none());
    img.set_histogram_ship(exp_histogram_ship);
    assert_eq!(img.histogram_ship(), Some(exp_histogram_ship));
    img.unset_histogram_ship();
    assert!(img.histogram_ship().is_none());
}
