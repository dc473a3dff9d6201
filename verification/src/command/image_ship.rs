//! The image ship modifier command group.

use vstd::prelude::*;

use crate::result::Error;
use crate::text::lemma_rendered_chars;
use crate::text::match_at;
use crate::text::str_starts_with;
use crate::command::blur_image::BlurImage;
use crate::command::compensation::Compensation;
use crate::command::document_filter::DocumentFilter;
use crate::command::edge_sharpen::EdgeSharpen;
use crate::command::gamma_correction::GammaCorrection;
use crate::command::histogram_ship::HistogramShip;
use crate::command::histogram_stretch::HistogramStretch;
use crate::command::image_rotate::ImageRotate;
use crate::command::infinity_filter::InfinityFilter;
use crate::command::invert_image::InvertImage;
use crate::command::jpeg_image_quality::JpegImageQuality;
use crate::command::noise_reduction::NoiseReduction;
use crate::command::pixel_depth::PixelDepth;
use crate::command::pixel_ship::PixelShip;
use crate::command::protocol::Protocol;

verus! {

/// Configure all barcode `Image Ship` encodings.
///
/// Each slot is independently optional; an unset slot contributes nothing
/// to the encoded command and is left unset by decoding.
#[derive(Clone, Copy, Debug, Eq, PartialEq)]
pub struct ImageShip {
    /// The optional infinity filter slot.
    pub infinity_filter: Option<InfinityFilter>,
    /// The optional compensation slot.
    pub compensation: Option<Compensation>,
    /// The optional pixel depth slot.
    pub pixel_depth: Option<PixelDepth>,
    /// The optional edge sharpen slot.
    pub edge_sharpen: Option<EdgeSharpen>,
    /// The optional histogram stretch slot.
    pub histogram_stretch: Option<HistogramStretch>,
    /// The optional invert image slot.
    pub invert_image: Option<InvertImage>,
    /// The optional noise reduction slot.
    pub noise_reduction: Option<NoiseReduction>,
    /// The optional image rotate slot.
    pub image_rotate: Option<ImageRotate>,
    /// The optional jpeg image quality slot.
    pub jpeg_image_quality: Option<JpegImageQuality>,
    /// The optional gamma correction slot.
    pub gamma_correction: Option<GammaCorrection>,
    /// The optional protocol slot.
    pub protocol: Option<Protocol>,
    /// The optional pixel ship slot.
    pub pixel_ship: Option<PixelShip>,
    /// The optional document filter slot.
    pub document_filter: Option<DocumentFilter>,
    /// The optional blur image slot.
    pub blur_image: Option<BlurImage>,
    /// The optional histogram ship slot.
    pub histogram_ship: Option<HistogramShip>,
}

impl ImageShip {
    /// The encoded command: the `IMGSHP` prefix, then every populated slot
    /// in fixed declared order.  An empty slot contributes nothing.
    pub open spec fn spec_command(self) -> Seq<char> {
        "IMGSHP"@ + (match self.infinity_filter { Some(v) => v.spec_command(), None => Seq::<char>::empty() })
            + (match self.compensation { Some(v) => v.spec_command(), None => Seq::<char>::empty() })
            + (match self.pixel_depth { Some(v) => v.spec_command(), None => Seq::<char>::empty() })
            + (match self.edge_sharpen { Some(v) => v.spec_command(), None => Seq::<char>::empty() })
            + (match self.histogram_stretch { Some(v) => v.spec_command(), None => Seq::<char>::empty() })
            + (match self.invert_image { Some(v) => v.spec_command(), None => Seq::<char>::empty() })
            + (match self.noise_reduction { Some(v) => v.spec_command(), None => Seq::<char>::empty() })
            + (match self.image_rotate { Some(v) => v.spec_command(), None => Seq::<char>::empty() })
            + (match self.jpeg_image_quality { Some(v) => v.spec_command(), None => Seq::<char>::empty() })
            + (match self.gamma_correction { Some(v) => v.spec_command(), None => Seq::<char>::empty() })
            + (match self.protocol { Some(v) => v.spec_command(), None => Seq::<char>::empty() })
            + (match self.pixel_ship { Some(v) => v.spec_command(), None => Seq::<char>::empty() })
            + (match self.document_filter { Some(v) => v.spec_command(), None => Seq::<char>::empty() })
            + (match self.blur_image { Some(v) => v.spec_command(), None => Seq::<char>::empty() })
            + (match self.histogram_ship { Some(v) => v.spec_command(), None => Seq::<char>::empty() })
    }

    /// Decoding: the input must start with the `IMGSHP` prefix; then every
    /// slot type is tried, independently, against the entire remainder, and
    /// populates its slot only if its own decoding succeeds.
    pub open spec fn spec_try_from(s: Seq<char>) -> Result<ImageShip, Error> {
        if !match_at(s, "IMGSHP"@, 0) {
            Err(Error::InvalidVariant)
        } else {
            let rem = s.subrange("IMGSHP"@.len() as int, s.len() as int);
            Ok(ImageShip {
                infinity_filter: InfinityFilter::spec_try_from(rem).ok(),
                compensation: Compensation::spec_try_from(rem).ok(),
                pixel_depth: PixelDepth::spec_try_from(rem).ok(),
                edge_sharpen: EdgeSharpen::spec_parse(rem).ok(),
                histogram_stretch: HistogramStretch::spec_try_from(rem).ok(),
                invert_image: InvertImage::spec_try_from(rem).ok(),
                noise_reduction: NoiseReduction::spec_try_from(rem).ok(),
                image_rotate: ImageRotate::spec_try_from(rem).ok(),
                jpeg_image_quality: JpegImageQuality::spec_parse(rem).ok(),
                gamma_correction: GammaCorrection::spec_parse(rem).ok(),
                protocol: Protocol::spec_try_from(rem).ok(),
                pixel_ship: PixelShip::spec_try_from(rem).ok(),
                document_filter: DocumentFilter::spec_parse(rem).ok(),
                blur_image: BlurImage::spec_try_from(rem).ok(),
                histogram_ship: HistogramShip::spec_try_from(rem).ok(),
            })
        }
    }

    /// Creates a new [ImageShip] with every slot unset.
    pub fn new() -> (r: Self)
        ensures
            r == (ImageShip {
                infinity_filter: None::<InfinityFilter>,
                compensation: None::<Compensation>,
                pixel_depth: None::<PixelDepth>,
                edge_sharpen: None::<EdgeSharpen>,
                histogram_stretch: None::<HistogramStretch>,
                invert_image: None::<InvertImage>,
                noise_reduction: None::<NoiseReduction>,
                image_rotate: None::<ImageRotate>,
                jpeg_image_quality: None::<JpegImageQuality>,
                gamma_correction: None::<GammaCorrection>,
                protocol: None::<Protocol>,
                pixel_ship: None::<PixelShip>,
                document_filter: None::<DocumentFilter>,
                blur_image: None::<BlurImage>,
                histogram_ship: None::<HistogramShip>,
            }),
    {
        Self {
            infinity_filter: None,
            compensation: None,
            pixel_depth: None,
            edge_sharpen: None,
            histogram_stretch: None,
            invert_image: None,
            noise_reduction: None,
            image_rotate: None,
            jpeg_image_quality: None,
            gamma_correction: None,
            protocol: None,
            pixel_ship: None,
            document_filter: None,
            blur_image: None,
            histogram_ship: None,
        }
    }

    /// Gets the command ASCII prefix for [ImageShip].
    pub fn prefix() -> (r: &'static str)
        ensures
            r@ == "IMGSHP"@,
    {
        "IMGSHP"
    }

    /// Gets the ASCII serial command code for [ImageShip].
    #[verifier::rlimit(100)]
    pub fn command(&self) -> (r: String)
        ensures
            r@ == self.spec_command(),
    {
        let ghost m0 = (match self.infinity_filter { Some(v) => v.spec_command(), None => Seq::<char>::empty() });
        let ghost m1 = (match self.compensation { Some(v) => v.spec_command(), None => Seq::<char>::empty() });
        let ghost m2 = (match self.pixel_depth { Some(v) => v.spec_command(), None => Seq::<char>::empty() });
        let ghost m3 = (match self.edge_sharpen { Some(v) => v.spec_command(), None => Seq::<char>::empty() });
        let ghost m4 = (match self.histogram_stretch { Some(v) => v.spec_command(), None => Seq::<char>::empty() });
        let ghost m5 = (match self.invert_image { Some(v) => v.spec_command(), None => Seq::<char>::empty() });
        let ghost m6 = (match self.noise_reduction { Some(v) => v.spec_command(), None => Seq::<char>::empty() });
        let ghost m7 = (match self.image_rotate { Some(v) => v.spec_command(), None => Seq::<char>::empty() });
        let ghost m8 = (match self.jpeg_image_quality { Some(v) => v.spec_command(), None => Seq::<char>::empty() });
        let ghost m9 = (match self.gamma_correction { Some(v) => v.spec_command(), None => Seq::<char>::empty() });
        let ghost m10 = (match self.protocol { Some(v) => v.spec_command(), None => Seq::<char>::empty() });
        let ghost m11 = (match self.pixel_ship { Some(v) => v.spec_command(), None => Seq::<char>::empty() });
        let ghost m12 = (match self.document_filter { Some(v) => v.spec_command(), None => Seq::<char>::empty() });
        let ghost m13 = (match self.blur_image { Some(v) => v.spec_command(), None => Seq::<char>::empty() });
        let ghost m14 = (match self.histogram_ship { Some(v) => v.spec_command(), None => Seq::<char>::empty() });
        let frag0 = match &self.infinity_filter {
            Some(v) => String::from_str(v.command()),
            None => String::new(),
        };
        proof {
            assert(frag0@ == m0);
        }
        let frag1 = match &self.compensation {
            Some(v) => String::from_str(v.command()),
            None => String::new(),
        };
        proof {
            assert(frag1@ == m1);
        }
        let frag2 = match &self.pixel_depth {
            Some(v) => String::from_str(v.command()),
            None => String::new(),
        };
        proof {
            assert(frag2@ == m2);
        }
        let frag3 = match &self.edge_sharpen {
            Some(v) => v.command(),
            None => String::new(),
        };
        proof {
            assert(frag3@ == m3);
        }
        let frag4 = match &self.histogram_stretch {
            Some(v) => String::from_str(v.command()),
            None => String::new(),
        };
        proof {
            assert(frag4@ == m4);
        }
        let frag5 = match &self.invert_image {
            Some(v) => String::from_str(v.command()),
            None => String::new(),
        };
        proof {
            assert(frag5@ == m5);
        }
        let frag6 = match &self.noise_reduction {
            Some(v) => String::from_str(v.command()),
            None => String::new(),
        };
        proof {
            assert(frag6@ == m6);
        }
        let frag7 = match &self.image_rotate {
            Some(v) => String::from_str(v.command()),
            None => String::new(),
        };
        proof {
            assert(frag7@ == m7);
        }
        let frag8 = match &self.jpeg_image_quality {
            Some(v) => v.command(),
            None => String::new(),
        };
        proof {
            assert(frag8@ == m8);
        }
        let frag9 = match &self.gamma_correction {
            Some(v) => v.command(),
            None => String::new(),
        };
        proof {
            assert(frag9@ == m9);
        }
        let frag10 = match &self.protocol {
            Some(v) => String::from_str(v.command()),
            None => String::new(),
        };
        proof {
            assert(frag10@ == m10);
        }
        let frag11 = match &self.pixel_ship {
            Some(v) => String::from_str(v.command()),
            None => String::new(),
        };
        proof {
            assert(frag11@ == m11);
        }
        let frag12 = match &self.document_filter {
            Some(v) => v.command(),
            None => String::new(),
        };
        proof {
            assert(frag12@ == m12);
        }
        let frag13 = match &self.blur_image {
            Some(v) => String::from_str(v.command()),
            None => String::new(),
        };
        proof {
            assert(frag13@ == m13);
        }
        let frag14 = match &self.histogram_ship {
            Some(v) => String::from_str(v.command()),
            None => String::new(),
        };
        proof {
            assert(frag14@ == m14);
        }
        let mut out = String::from_str("IMGSHP");
        out.append(frag0.as_str());
        out.append(frag1.as_str());
        out.append(frag2.as_str());
        out.append(frag3.as_str());
        out.append(frag4.as_str());
        out.append(frag5.as_str());
        out.append(frag6.as_str());
        out.append(frag7.as_str());
        out.append(frag8.as_str());
        out.append(frag9.as_str());
        out.append(frag10.as_str());
        out.append(frag11.as_str());
        out.append(frag12.as_str());
        out.append(frag13.as_str());
        out.append(frag14.as_str());
        proof {
            assert(out@ == self.spec_command());
        }
        out
    }

    /// Decodes an [ImageShip] from a string: the `IMGSHP` prefix is required,
    /// and each slot is then populated from the remainder if its own
    /// decoding succeeds there.
    pub fn try_from(val: &str) -> (r: Result<Self, Error>)
        ensures
            r == ImageShip::spec_try_from(val@),
    {
        proof {
            reveal_strlit("IMGSHP");
        }
        if !str_starts_with(val, "IMGSHP") {
            return Err(Error::InvalidVariant);
        }
        let n = val.unicode_len();
        let rem = val.substring_char(6, n);
        Ok(Self {
            infinity_filter: InfinityFilter::try_from(rem).ok(),
            compensation: Compensation::try_from(rem).ok(),
            pixel_depth: PixelDepth::try_from(rem).ok(),
            edge_sharpen: EdgeSharpen::parse(rem).ok(),
            histogram_stretch: HistogramStretch::try_from(rem).ok(),
            invert_image: InvertImage::try_from(rem).ok(),
            noise_reduction: NoiseReduction::try_from(rem).ok(),
            image_rotate: ImageRotate::try_from(rem).ok(),
            jpeg_image_quality: JpegImageQuality::parse(rem).ok(),
            gamma_correction: GammaCorrection::parse(rem).ok(),
            protocol: Protocol::try_from(rem).ok(),
            pixel_ship: PixelShip::try_from(rem).ok(),
            document_filter: DocumentFilter::try_from(rem).ok(),
            blur_image: BlurImage::try_from(rem).ok(),
            histogram_ship: HistogramShip::try_from(rem).ok(),
        })
    }
}

impl ImageShip {
    /// Gets the [InfinityFilter] slot of this [ImageShip].
    pub fn infinity_filter(&self) -> (r: Option<InfinityFilter>)
        ensures
            r == self.infinity_filter,
    {
        self.infinity_filter
    }

    /// Sets the [InfinityFilter] slot; every other slot is unchanged.
    pub fn set_infinity_filter(&mut self, val: InfinityFilter)
        ensures
            *final(self) == (ImageShip { infinity_filter: Some(val), ..*old(self) }),
    {
        self.infinity_filter = Some(val);
    }

    /// Unsets the [InfinityFilter] slot; every other slot is unchanged.
    pub fn unset_infinity_filter(&mut self)
        ensures
            *final(self) == (ImageShip { infinity_filter: None::<InfinityFilter>, ..*old(self) }),
    {
        self.infinity_filter = None;
    }

    /// Builder: returns a copy with the [InfinityFilter] slot set and every
    /// other slot carried over unchanged.
    pub fn with_infinity_filter(self, val: InfinityFilter) -> (r: Self)
        ensures
            r == (ImageShip { infinity_filter: Some(val), ..self }),
    {
        Self { infinity_filter: Some(val), ..self }
    }
}

impl ImageShip {
    /// Gets the [Compensation] slot of this [ImageShip].
    pub fn compensation(&self) -> (r: Option<Compensation>)
        ensures
            r == self.compensation,
    {
        self.compensation
    }

    /// Sets the [Compensation] slot; every other slot is unchanged.
    pub fn set_compensation(&mut self, val: Compensation)
        ensures
            *final(self) == (ImageShip { compensation: Some(val), ..*old(self) }),
    {
        self.compensation = Some(val);
    }

    /// Unsets the [Compensation] slot; every other slot is unchanged.
    pub fn unset_compensation(&mut self)
        ensures
            *final(self) == (ImageShip { compensation: None::<Compensation>, ..*old(self) }),
    {
        self.compensation = None;
    }

    /// Builder: returns a copy with the [Compensation] slot set and every
    /// other slot carried over unchanged.
    pub fn with_compensation(self, val: Compensation) -> (r: Self)
        ensures
            r == (ImageShip { compensation: Some(val), ..self }),
    {
        Self { compensation: Some(val), ..self }
    }
}

impl ImageShip {
    /// Gets the [PixelDepth] slot of this [ImageShip].
    pub fn pixel_depth(&self) -> (r: Option<PixelDepth>)
        ensures
            r == self.pixel_depth,
    {
        self.pixel_depth
    }

    /// Sets the [PixelDepth] slot; every other slot is unchanged.
    pub fn set_pixel_depth(&mut self, val: PixelDepth)
        ensures
            *final(self) == (ImageShip { pixel_depth: Some(val), ..*old(self) }),
    {
        self.pixel_depth = Some(val);
    }

    /// Unsets the [PixelDepth] slot; every other slot is unchanged.
    pub fn unset_pixel_depth(&mut self)
        ensures
            *final(self) == (ImageShip { pixel_depth: None::<PixelDepth>, ..*old(self) }),
    {
        self.pixel_depth = None;
    }

    /// Builder: returns a copy with the [PixelDepth] slot set and every
    /// other slot carried over unchanged.
    pub fn with_pixel_depth(self, val: PixelDepth) -> (r: Self)
        ensures
            r == (ImageShip { pixel_depth: Some(val), ..self }),
    {
        Self { pixel_depth: Some(val), ..self }
    }
}

impl ImageShip {
    /// Gets the [EdgeSharpen] slot of this [ImageShip].
    pub fn edge_sharpen(&self) -> (r: Option<EdgeSharpen>)
        ensures
            r == self.edge_sharpen,
    {
        self.edge_sharpen
    }

    /// Sets the [EdgeSharpen] slot; every other slot is unchanged.
    pub fn set_edge_sharpen(&mut self, val: EdgeSharpen)
        ensures
            *final(self) == (ImageShip { edge_sharpen: Some(val), ..*old(self) }),
    {
        self.edge_sharpen = Some(val);
    }

    /// Unsets the [EdgeSharpen] slot; every other slot is unchanged.
    pub fn unset_edge_sharpen(&mut self)
        ensures
            *final(self) == (ImageShip { edge_sharpen: None::<EdgeSharpen>, ..*old(self) }),
    {
        self.edge_sharpen = None;
    }

    /// Builder: returns a copy with the [EdgeSharpen] slot set and every
    /// other slot carried over unchanged.
    pub fn with_edge_sharpen(self, val: EdgeSharpen) -> (r: Self)
        ensures
            r == (ImageShip { edge_sharpen: Some(val), ..self }),
    {
        Self { edge_sharpen: Some(val), ..self }
    }
}

impl ImageShip {
    /// Gets the [HistogramStretch] slot of this [ImageShip].
    pub fn histogram_stretch(&self) -> (r: Option<HistogramStretch>)
        ensures
            r == self.histogram_stretch,
    {
        self.histogram_stretch
    }

    /// Sets the [HistogramStretch] slot; every other slot is unchanged.
    pub fn set_histogram_stretch(&mut self, val: HistogramStretch)
        ensures
            *final(self) == (ImageShip { histogram_stretch: Some(val), ..*old(self) }),
    {
        self.histogram_stretch = Some(val);
    }

    /// Unsets the [HistogramStretch] slot; every other slot is unchanged.
    pub fn unset_histogram_stretch(&mut self)
        ensures
            *final(self) == (ImageShip { histogram_stretch: None::<HistogramStretch>, ..*old(self) }),
    {
        self.histogram_stretch = None;
    }

    /// Builder: returns a copy with the [HistogramStretch] slot set and every
    /// other slot carried over unchanged.
    pub fn with_histogram_stretch(self, val: HistogramStretch) -> (r: Self)
        ensures
            r == (ImageShip { histogram_stretch: Some(val), ..self }),
    {
        Self { histogram_stretch: Some(val), ..self }
    }
}

impl ImageShip {
    /// Gets the [InvertImage] slot of this [ImageShip].
    pub fn invert_image(&self) -> (r: Option<InvertImage>)
        ensures
            r == self.invert_image,
    {
        self.invert_image
    }

    /// Sets the [InvertImage] slot; every other slot is unchanged.
    pub fn set_invert_image(&mut self, val: InvertImage)
        ensures
            *final(self) == (ImageShip { invert_image: Some(val), ..*old(self) }),
    {
        self.invert_image = Some(val);
    }

    /// Unsets the [InvertImage] slot; every other slot is unchanged.
    pub fn unset_invert_image(&mut self)
        ensures
            *final(self) == (ImageShip { invert_image: None::<InvertImage>, ..*old(self) }),
    {
        self.invert_image = None;
    }

    /// Builder: returns a copy with the [InvertImage] slot set and every
    /// other slot carried over unchanged.
    pub fn with_invert_image(self, val: InvertImage) -> (r: Self)
        ensures
            r == (ImageShip { invert_image: Some(val), ..self }),
    {
        Self { invert_image: Some(val), ..self }
    }
}

impl ImageShip {
    /// Gets the [NoiseReduction] slot of this [ImageShip].
    pub fn noise_reduction(&self) -> (r: Option<NoiseReduction>)
        ensures
            r == self.noise_reduction,
    {
        self.noise_reduction
    }

    /// Sets the [NoiseReduction] slot; every other slot is unchanged.
    pub fn set_noise_reduction(&mut self, val: NoiseReduction)
        ensures
            *final(self) == (ImageShip { noise_reduction: Some(val), ..*old(self) }),
    {
        self.noise_reduction = Some(val);
    }

    /// Unsets the [NoiseReduction] slot; every other slot is unchanged.
    pub fn unset_noise_reduction(&mut self)
        ensures
            *final(self) == (ImageShip { noise_reduction: None::<NoiseReduction>, ..*old(self) }),
    {
        self.noise_reduction = None;
    }

    /// Builder: returns a copy with the [NoiseReduction] slot set and every
    /// other slot carried over unchanged.
    pub fn with_noise_reduction(self, val: NoiseReduction) -> (r: Self)
        ensures
            r == (ImageShip { noise_reduction: Some(val), ..self }),
    {
        Self { noise_reduction: Some(val), ..self }
    }
}

impl ImageShip {
    /// Gets the [ImageRotate] slot of this [ImageShip].
    pub fn image_rotate(&self) -> (r: Option<ImageRotate>)
        ensures
            r == self.image_rotate,
    {
        self.image_rotate
    }

    /// Sets the [ImageRotate] slot; every other slot is unchanged.
    pub fn set_image_rotate(&mut self, val: ImageRotate)
        ensures
            *final(self) == (ImageShip { image_rotate: Some(val), ..*old(self) }),
    {
        self.image_rotate = Some(val);
    }

    /// Unsets the [ImageRotate] slot; every other slot is unchanged.
    pub fn unset_image_rotate(&mut self)
        ensures
            *final(self) == (ImageShip { image_rotate: None::<ImageRotate>, ..*old(self) }),
    {
        self.image_rotate = None;
    }

    /// Builder: returns a copy with the [ImageRotate] slot set and every
    /// other slot carried over unchanged.
    pub fn with_image_rotate(self, val: ImageRotate) -> (r: Self)
        ensures
            r == (ImageShip { image_rotate: Some(val), ..self }),
    {
        Self { image_rotate: Some(val), ..self }
    }
}

impl ImageShip {
    /// Gets the [JpegImageQuality] slot of this [ImageShip].
    pub fn jpeg_image_quality(&self) -> (r: Option<JpegImageQuality>)
        ensures
            r == self.jpeg_image_quality,
    {
        self.jpeg_image_quality
    }

    /// Sets the [JpegImageQuality] slot; every other slot is unchanged.
    pub fn set_jpeg_image_quality(&mut self, val: JpegImageQuality)
        ensures
            *final(self) == (ImageShip { jpeg_image_quality: Some(val), ..*old(self) }),
    {
        self.jpeg_image_quality = Some(val);
    }

    /// Unsets the [JpegImageQuality] slot; every other slot is unchanged.
    pub fn unset_jpeg_image_quality(&mut self)
        ensures
            *final(self) == (ImageShip { jpeg_image_quality: None::<JpegImageQuality>, ..*old(self) }),
    {
        self.jpeg_image_quality = None;
    }

    /// Builder: returns a copy with the [JpegImageQuality] slot set and every
    /// other slot carried over unchanged.
    pub fn with_jpeg_image_quality(self, val: JpegImageQuality) -> (r: Self)
        ensures
            r == (ImageShip { jpeg_image_quality: Some(val), ..self }),
    {
        Self { jpeg_image_quality: Some(val), ..self }
    }
}

impl ImageShip {
    /// Gets the [GammaCorrection] slot of this [ImageShip].
    pub fn gamma_correction(&self) -> (r: Option<GammaCorrection>)
        ensures
            r == self.gamma_correction,
    {
        self.gamma_correction
    }

    /// Sets the [GammaCorrection] slot; every other slot is unchanged.
    pub fn set_gamma_correction(&mut self, val: GammaCorrection)
        ensures
            *final(self) == (ImageShip { gamma_correction: Some(val), ..*old(self) }),
    {
        self.gamma_correction = Some(val);
    }

    /// Unsets the [GammaCorrection] slot; every other slot is unchanged.
    pub fn unset_gamma_correction(&mut self)
        ensures
            *final(self) == (ImageShip { gamma_correction: None::<GammaCorrection>, ..*old(self) }),
    {
        self.gamma_correction = None;
    }

    /// Builder: returns a copy with the [GammaCorrection] slot set and every
    /// other slot carried over unchanged.
    pub fn with_gamma_correction(self, val: GammaCorrection) -> (r: Self)
        ensures
            r == (ImageShip { gamma_correction: Some(val), ..self }),
    {
        Self { gamma_correction: Some(val), ..self }
    }
}

impl ImageShip {
    /// Gets the [Protocol] slot of this [ImageShip].
    pub fn protocol(&self) -> (r: Option<Protocol>)
        ensures
            r == self.protocol,
    {
        self.protocol
    }

    /// Sets the [Protocol] slot; every other slot is unchanged.
    pub fn set_protocol(&mut self, val: Protocol)
        ensures
            *final(self) == (ImageShip { protocol: Some(val), ..*old(self) }),
    {
        self.protocol = Some(val);
    }

    /// Unsets the [Protocol] slot; every other slot is unchanged.
    pub fn unset_protocol(&mut self)
        ensures
            *final(self) == (ImageShip { protocol: None::<Protocol>, ..*old(self) }),
    {
        self.protocol = None;
    }

    /// Builder: returns a copy with the [Protocol] slot set and every
    /// other slot carried over unchanged.
    pub fn with_protocol(self, val: Protocol) -> (r: Self)
        ensures
            r == (ImageShip { protocol: Some(val), ..self }),
    {
        Self { protocol: Some(val), ..self }
    }
}

impl ImageShip {
    /// Gets the [PixelShip] slot of this [ImageShip].
    pub fn pixel_ship(&self) -> (r: Option<PixelShip>)
        ensures
            r == self.pixel_ship,
    {
        self.pixel_ship
    }

    /// Sets the [PixelShip] slot; every other slot is unchanged.
    pub fn set_pixel_ship(&mut self, val: PixelShip)
        ensures
            *final(self) == (ImageShip { pixel_ship: Some(val), ..*old(self) }),
    {
        self.pixel_ship = Some(val);
    }

    /// Unsets the [PixelShip] slot; every other slot is unchanged.
    pub fn unset_pixel_ship(&mut self)
        ensures
            *final(self) == (ImageShip { pixel_ship: None::<PixelShip>, ..*old(self) }),
    {
        self.pixel_ship = None;
    }

    /// Builder: returns a copy with the [PixelShip] slot set and every
    /// other slot carried over unchanged.
    pub fn with_pixel_ship(self, val: PixelShip) -> (r: Self)
        ensures
            r == (ImageShip { pixel_ship: Some(val), ..self }),
    {
        Self { pixel_ship: Some(val), ..self }
    }
}

impl ImageShip {
    /// Gets the [DocumentFilter] slot of this [ImageShip].
    pub fn document_filter(&self) -> (r: Option<DocumentFilter>)
        ensures
            r == self.document_filter,
    {
        self.document_filter
    }

    /// Sets the [DocumentFilter] slot; every other slot is unchanged.
    pub fn set_document_filter(&mut self, val: DocumentFilter)
        ensures
            *final(self) == (ImageShip { document_filter: Some(val), ..*old(self) }),
    {
        self.document_filter = Some(val);
    }

    /// Unsets the [DocumentFilter] slot; every other slot is unchanged.
    pub fn unset_document_filter(&mut self)
        ensures
            *final(self) == (ImageShip { document_filter: None::<DocumentFilter>, ..*old(self) }),
    {
        self.document_filter = None;
    }

    /// Builder: returns a copy with the [DocumentFilter] slot set and every
    /// other slot carried over unchanged.
    pub fn with_document_filter(self, val: DocumentFilter) -> (r: Self)
        ensures
            r == (ImageShip { document_filter: Some(val), ..self }),
    {
        Self { document_filter: Some(val), ..self }
    }
}

impl ImageShip {
    /// Gets the [BlurImage] slot of this [ImageShip].
    pub fn blur_image(&self) -> (r: Option<BlurImage>)
        ensures
            r == self.blur_image,
    {
        self.blur_image
    }

    /// Sets the [BlurImage] slot; every other slot is unchanged.
    pub fn set_blur_image(&mut self, val: BlurImage)
        ensures
            *final(self) == (ImageShip { blur_image: Some(val), ..*old(self) }),
    {
        self.blur_image = Some(val);
    }

    /// Unsets the [BlurImage] slot; every other slot is unchanged.
    pub fn unset_blur_image(&mut self)
        ensures
            *final(self) == (ImageShip { blur_image: None::<BlurImage>, ..*old(self) }),
    {
        self.blur_image = None;
    }

    /// Builder: returns a copy with the [BlurImage] slot set and every
    /// other slot carried over unchanged.
    pub fn with_blur_image(self, val: BlurImage) -> (r: Self)
        ensures
            r == (ImageShip { blur_image: Some(val), ..self }),
    {
        Self { blur_image: Some(val), ..self }
    }
}

impl ImageShip {
    /// Gets the [HistogramShip] slot of this [ImageShip].
    pub fn histogram_ship(&self) -> (r: Option<HistogramShip>)
        ensures
            r == self.histogram_ship,
    {
        self.histogram_ship
    }

    /// Sets the [HistogramShip] slot; every other slot is unchanged.
    pub fn set_histogram_ship(&mut self, val: HistogramShip)
        ensures
            *final(self) == (ImageShip { histogram_ship: Some(val), ..*old(self) }),
    {
        self.histogram_ship = Some(val);
    }

    /// Unsets the [HistogramShip] slot; every other slot is unchanged.
    pub fn unset_histogram_ship(&mut self)
        ensures
            *final(self) == (ImageShip { histogram_ship: None::<HistogramShip>, ..*old(self) }),
    {
        self.histogram_ship = None;
    }

    /// Builder: returns a copy with the [HistogramShip] slot set and every
    /// other slot carried over unchanged.
    pub fn with_histogram_ship(self, val: HistogramShip) -> (r: Self)
        ensures
            r == (ImageShip { histogram_ship: Some(val), ..self }),
    {
        Self { histogram_ship: Some(val), ..self }
    }
}

impl Default for ImageShip {
    fn default() -> (r: Self)
        ensures
            r == ImageShip::new_spec(),
    {
        Self::new()
    }
}

impl ImageShip {
    /// The all-unset group value.
    pub open spec fn new_spec() -> Self {
        ImageShip {
            infinity_filter: None::<InfinityFilter>,
            compensation: None::<Compensation>,
            pixel_depth: None::<PixelDepth>,
            edge_sharpen: None::<EdgeSharpen>,
            histogram_stretch: None::<HistogramStretch>,
            invert_image: None::<InvertImage>,
            noise_reduction: None::<NoiseReduction>,
            image_rotate: None::<ImageRotate>,
            jpeg_image_quality: None::<JpegImageQuality>,
            gamma_correction: None::<GammaCorrection>,
            protocol: None::<Protocol>,
            pixel_ship: None::<PixelShip>,
            document_filter: None::<DocumentFilter>,
            blur_image: None::<BlurImage>,
            histogram_ship: None::<HistogramShip>,
        }
    }
}

/// The encoded command depends only on which slots are populated and with
/// what: any order of `set_*` calls that leaves the same slots set yields
/// the same command string, emitted in declared order.
pub proof fn lemma_command_emission_order(a: ImageShip, b: ImageShip)
    requires
        a.infinity_filter == b.infinity_filter,
        a.compensation == b.compensation,
        a.pixel_depth == b.pixel_depth,
        a.edge_sharpen == b.edge_sharpen,
        a.histogram_stretch == b.histogram_stretch,
        a.invert_image == b.invert_image,
        a.noise_reduction == b.noise_reduction,
        a.image_rotate == b.image_rotate,
        a.jpeg_image_quality == b.jpeg_image_quality,
        a.gamma_correction == b.gamma_correction,
        a.protocol == b.protocol,
        a.pixel_ship == b.pixel_ship,
        a.document_filter == b.document_filter,
        a.blur_image == b.blur_image,
        a.histogram_ship == b.histogram_ship,
    ensures
        a.spec_command() == b.spec_command(),
{
    assert(a == b);
}

/// Decoding any string that does not start with the group prefix fails,
/// whatever follows.
pub proof fn lemma_try_from_requires_prefix(s: Seq<char>)
    requires
        !match_at(s, "IMGSHP"@, 0),
    ensures
        ImageShip::spec_try_from(s) == Err::<ImageShip, Error>(Error::InvalidVariant),
{
}

/// Decoding the bare prefix yields the group with every slot unset.
pub proof fn lemma_try_from_bare_prefix()
    ensures
        ImageShip::spec_try_from("IMGSHP"@) == Ok::<ImageShip, Error>(ImageShip::new_spec()),
{
    reveal_strlit("IMGSHP");
    let s = "IMGSHP"@;
    assert(match_at(s, "IMGSHP"@, 0));
    let rem = s.subrange(s.len() as int, s.len() as int);
    assert(rem =~= Seq::<char>::empty());
    crate::command::infinity_filter::lemma_try_from_absent(rem);
    crate::command::compensation::lemma_try_from_absent(rem);
    crate::command::pixel_depth::lemma_try_from_absent(rem);
    crate::command::edge_sharpen::lemma_parse_absent(rem);
    crate::command::histogram_stretch::lemma_try_from_absent(rem);
    crate::command::invert_image::lemma_try_from_absent(rem);
    crate::command::noise_reduction::lemma_try_from_absent(rem);
    crate::command::image_rotate::lemma_try_from_absent(rem);
    crate::command::jpeg_image_quality::lemma_parse_absent(rem);
    crate::command::gamma_correction::lemma_parse_absent(rem);
    crate::command::protocol::lemma_try_from_absent(rem);
    crate::command::pixel_ship::lemma_try_from_absent(rem);
    crate::command::document_filter::lemma_try_from_absent(rem);
    crate::command::blur_image::lemma_try_from_absent(rem);
    crate::command::histogram_ship::lemma_try_from_absent(rem);
}

/// Decoding the prefix followed by one encoded [InfinityFilter] populates exactly
/// that slot.
pub proof fn lemma_try_from_single_infinity_filter(v: InfinityFilter)
    ensures
        ImageShip::spec_try_from("IMGSHP"@ + v.spec_command()) == Ok::<ImageShip, Error>(
            ImageShip {
                infinity_filter: Some(v),
                ..ImageShip::new_spec()
            },
        ),
{
    reveal_strlit("IMGSHP");
    let frag = v.spec_command();
    let s = "IMGSHP"@ + frag;
    reveal_strlit("0A");
    reveal_strlit("1A");
    assert(match_at(s, "IMGSHP"@, 0));
    assert(s.subrange("IMGSHP"@.len() as int, s.len() as int) =~= frag);
    crate::command::infinity_filter::lemma_round_trip(v);
    crate::command::infinity_filter::lemma_command_chars(v, 'C');
    crate::command::compensation::lemma_try_from_absent(frag);
    crate::command::infinity_filter::lemma_command_chars(v, 'D');
    crate::command::pixel_depth::lemma_try_from_absent(frag);
    crate::command::infinity_filter::lemma_command_chars(v, 'E');
    crate::command::edge_sharpen::lemma_parse_absent(frag);
    crate::command::infinity_filter::lemma_command_chars(v, 'H');
    crate::command::histogram_stretch::lemma_try_from_absent(frag);
    crate::command::infinity_filter::lemma_command_chars(v, 'x');
    crate::command::infinity_filter::lemma_command_chars(v, 'y');
    crate::command::invert_image::lemma_try_from_absent(frag);
    crate::command::infinity_filter::lemma_command_chars(v, 'f');
    crate::command::noise_reduction::lemma_try_from_absent(frag);
    crate::command::infinity_filter::lemma_command_chars(v, 'r');
    crate::command::image_rotate::lemma_try_from_absent(frag);
    crate::command::infinity_filter::lemma_command_chars(v, 'J');
    crate::command::jpeg_image_quality::lemma_parse_absent(frag);
    crate::command::infinity_filter::lemma_command_chars(v, 'K');
    crate::command::gamma_correction::lemma_parse_absent(frag);
    crate::command::infinity_filter::lemma_command_chars(v, 'P');
    crate::command::protocol::lemma_try_from_absent(frag);
    crate::command::infinity_filter::lemma_command_chars(v, 'S');
    crate::command::pixel_ship::lemma_try_from_absent(frag);
    crate::command::infinity_filter::lemma_command_chars(v, 'U');
    crate::command::document_filter::lemma_try_from_absent(frag);
    crate::command::infinity_filter::lemma_command_chars(v, 'V');
    crate::command::blur_image::lemma_try_from_absent(frag);
    crate::command::infinity_filter::lemma_command_chars(v, 'W');
    crate::command::histogram_ship::lemma_try_from_absent(frag);
}

/// Decoding the prefix followed by one encoded [Compensation] populates exactly
/// that slot.
pub proof fn lemma_try_from_single_compensation(v: Compensation)
    ensures
        ImageShip::spec_try_from("IMGSHP"@ + v.spec_command()) == Ok::<ImageShip, Error>(
            ImageShip {
                compensation: Some(v),
                ..ImageShip::new_spec()
            },
        ),
{
    reveal_strlit("IMGSHP");
    let frag = v.spec_command();
    let s = "IMGSHP"@ + frag;
    reveal_strlit("0C");
    reveal_strlit("1C");
    assert(match_at(s, "IMGSHP"@, 0));
    assert(s.subrange("IMGSHP"@.len() as int, s.len() as int) =~= frag);
    crate::command::compensation::lemma_round_trip(v);
    crate::command::compensation::lemma_command_chars(v, 'A');
    crate::command::infinity_filter::lemma_try_from_absent(frag);
    crate::command::compensation::lemma_command_chars(v, 'D');
    crate::command::pixel_depth::lemma_try_from_absent(frag);
    crate::command::compensation::lemma_command_chars(v, 'E');
    crate::command::edge_sharpen::lemma_parse_absent(frag);
    crate::command::compensation::lemma_command_chars(v, 'H');
    crate::command::histogram_stretch::lemma_try_from_absent(frag);
    crate::command::compensation::lemma_command_chars(v, 'x');
    crate::command::compensation::lemma_command_chars(v, 'y');
    crate::command::invert_image::lemma_try_from_absent(frag);
    crate::command::compensation::lemma_command_chars(v, 'f');
    crate::command::noise_reduction::lemma_try_from_absent(frag);
    crate::command::compensation::lemma_command_chars(v, 'r');
    crate::command::image_rotate::lemma_try_from_absent(frag);
    crate::command::compensation::lemma_command_chars(v, 'J');
    crate::command::jpeg_image_quality::lemma_parse_absent(frag);
    crate::command::compensation::lemma_command_chars(v, 'K');
    crate::command::gamma_correction::lemma_parse_absent(frag);
    crate::command::compensation::lemma_command_chars(v, 'P');
    crate::command::protocol::lemma_try_from_absent(frag);
    crate::command::compensation::lemma_command_chars(v, 'S');
    crate::command::pixel_ship::lemma_try_from_absent(frag);
    crate::command::compensation::lemma_command_chars(v, 'U');
    crate::command::document_filter::lemma_try_from_absent(frag);
    crate::command::compensation::lemma_command_chars(v, 'V');
    crate::command::blur_image::lemma_try_from_absent(frag);
    crate::command::compensation::lemma_command_chars(v, 'W');
    crate::command::histogram_ship::lemma_try_from_absent(frag);
}

/// Decoding the prefix followed by one encoded [PixelDepth] populates exactly
/// that slot.
pub proof fn lemma_try_from_single_pixel_depth(v: PixelDepth)
    ensures
        ImageShip::spec_try_from("IMGSHP"@ + v.spec_command()) == Ok::<ImageShip, Error>(
            ImageShip {
                pixel_depth: Some(v),
                ..ImageShip::new_spec()
            },
        ),
{
    reveal_strlit("IMGSHP");
    let frag = v.spec_command();
    let s = "IMGSHP"@ + frag;
    reveal_strlit("8D");
    reveal_strlit("1D");
    assert(match_at(s, "IMGSHP"@, 0));
    assert(s.subrange("IMGSHP"@.len() as int, s.len() as int) =~= frag);
    crate::command::pixel_depth::lemma_round_trip(v);
    crate::command::pixel_depth::lemma_command_chars(v, 'A');
    crate::command::infinity_filter::lemma_try_from_absent(frag);
    crate::command::pixel_depth::lemma_command_chars(v, 'C');
    crate::command::compensation::lemma_try_from_absent(frag);
    crate::command::pixel_depth::lemma_command_chars(v, 'E');
    crate::command::edge_sharpen::lemma_parse_absent(frag);
    crate::command::pixel_depth::lemma_command_chars(v, 'H');
    crate::command::histogram_stretch::lemma_try_from_absent(frag);
    crate::command::pixel_depth::lemma_command_chars(v, 'x');
    crate::command::pixel_depth::lemma_command_chars(v, 'y');
    crate::command::invert_image::lemma_try_from_absent(frag);
    crate::command::pixel_depth::lemma_command_chars(v, 'f');
    crate::command::noise_reduction::lemma_try_from_absent(frag);
    crate::command::pixel_depth::lemma_command_chars(v, 'r');
    crate::command::image_rotate::lemma_try_from_absent(frag);
    crate::command::pixel_depth::lemma_command_chars(v, 'J');
    crate::command::jpeg_image_quality::lemma_parse_absent(frag);
    crate::command::pixel_depth::lemma_command_chars(v, 'K');
    crate::command::gamma_correction::lemma_parse_absent(frag);
    crate::command::pixel_depth::lemma_command_chars(v, 'P');
    crate::command::protocol::lemma_try_from_absent(frag);
    crate::command::pixel_depth::lemma_command_chars(v, 'S');
    crate::command::pixel_ship::lemma_try_from_absent(frag);
    crate::command::pixel_depth::lemma_command_chars(v, 'U');
    crate::command::document_filter::lemma_try_from_absent(frag);
    crate::command::pixel_depth::lemma_command_chars(v, 'V');
    crate::command::blur_image::lemma_try_from_absent(frag);
    crate::command::pixel_depth::lemma_command_chars(v, 'W');
    crate::command::histogram_ship::lemma_try_from_absent(frag);
}

/// Decoding the prefix followed by one encoded [EdgeSharpen] populates exactly
/// that slot.
pub proof fn lemma_try_from_single_edge_sharpen(v: EdgeSharpen)
    requires
        v.wf(),
    ensures
        ImageShip::spec_try_from("IMGSHP"@ + v.spec_command()) == Ok::<ImageShip, Error>(
            ImageShip {
                edge_sharpen: Some(v),
                ..ImageShip::new_spec()
            },
        ),
{
    reveal_strlit("IMGSHP");
    let frag = v.spec_command();
    let s = "IMGSHP"@ + frag;
    lemma_rendered_chars(v.strength as nat, 'E');
    assert(match_at(s, "IMGSHP"@, 0));
    assert(s.subrange("IMGSHP"@.len() as int, s.len() as int) =~= frag);
    crate::command::edge_sharpen::lemma_round_trip(v);
    assert(forall|i: int| 0 <= i < frag.len() ==> frag[i] != 'A');
    crate::command::infinity_filter::lemma_try_from_absent(frag);
    assert(forall|i: int| 0 <= i < frag.len() ==> frag[i] != 'C');
    crate::command::compensation::lemma_try_from_absent(frag);
    assert(forall|i: int| 0 <= i < frag.len() ==> frag[i] != 'D');
    crate::command::pixel_depth::lemma_try_from_absent(frag);
    assert(forall|i: int| 0 <= i < frag.len() ==> frag[i] != 'H');
    crate::command::histogram_stretch::lemma_try_from_absent(frag);
    assert(forall|i: int| 0 <= i < frag.len() ==> frag[i] != 'x');
    assert(forall|i: int| 0 <= i < frag.len() ==> frag[i] != 'y');
    crate::command::invert_image::lemma_try_from_absent(frag);
    assert(forall|i: int| 0 <= i < frag.len() ==> frag[i] != 'f');
    crate::command::noise_reduction::lemma_try_from_absent(frag);
    assert(forall|i: int| 0 <= i < frag.len() ==> frag[i] != 'r');
    crate::command::image_rotate::lemma_try_from_absent(frag);
    assert(forall|i: int| 0 <= i < frag.len() ==> frag[i] != 'J');
    crate::command::jpeg_image_quality::lemma_parse_absent(frag);
    assert(forall|i: int| 0 <= i < frag.len() ==> frag[i] != 'K');
    crate::command::gamma_correction::lemma_parse_absent(frag);
    assert(forall|i: int| 0 <= i < frag.len() ==> frag[i] != 'P');
    crate::command::protocol::lemma_try_from_absent(frag);
    assert(forall|i: int| 0 <= i < frag.len() ==> frag[i] != 'S');
    crate::command::pixel_ship::lemma_try_from_absent(frag);
    assert(forall|i: int| 0 <= i < frag.len() ==> frag[i] != 'U');
    crate::command::document_filter::lemma_try_from_absent(frag);
    assert(forall|i: int| 0 <= i < frag.len() ==> frag[i] != 'V');
    crate::command::blur_image::lemma_try_from_absent(frag);
    assert(forall|i: int| 0 <= i < frag.len() ==> frag[i] != 'W');
    crate::command::histogram_ship::lemma_try_from_absent(frag);
}

/// Decoding the prefix followed by one encoded [HistogramStretch] populates exactly
/// that slot.
pub proof fn lemma_try_from_single_histogram_stretch(v: HistogramStretch)
    ensures
        ImageShip::spec_try_from("IMGSHP"@ + v.spec_command()) == Ok::<ImageShip, Error>(
            ImageShip {
                histogram_stretch: Some(v),
                ..ImageShip::new_spec()
            },
        ),
{
    reveal_strlit("IMGSHP");
    let frag = v.spec_command();
    let s = "IMGSHP"@ + frag;
    reveal_strlit("0H");
    reveal_strlit("1H");
    assert(match_at(s, "IMGSHP"@, 0));
    assert(s.subrange("IMGSHP"@.len() as int, s.len() as int) =~= frag);
    crate::command::histogram_stretch::lemma_round_trip(v);
    crate::command::histogram_stretch::lemma_command_chars(v, 'A');
    crate::command::infinity_filter::lemma_try_from_absent(frag);
    crate::command::histogram_stretch::lemma_command_chars(v, 'C');
    crate::command::compensation::lemma_try_from_absent(frag);
    crate::command::histogram_stretch::lemma_command_chars(v, 'D');
    crate::command::pixel_depth::lemma_try_from_absent(frag);
    crate::command::histogram_stretch::lemma_command_chars(v, 'E');
    crate::command::edge_sharpen::lemma_parse_absent(frag);
    crate::command::histogram_stretch::lemma_command_chars(v, 'x');
    crate::command::histogram_stretch::lemma_command_chars(v, 'y');
    crate::command::invert_image::lemma_try_from_absent(frag);
    crate::command::histogram_stretch::lemma_command_chars(v, 'f');
    crate::command::noise_reduction::lemma_try_from_absent(frag);
    crate::command::histogram_stretch::lemma_command_chars(v, 'r');
    crate::command::image_rotate::lemma_try_from_absent(frag);
    crate::command::histogram_stretch::lemma_command_chars(v, 'J');
    crate::command::jpeg_image_quality::lemma_parse_absent(frag);
    crate::command::histogram_stretch::lemma_command_chars(v, 'K');
    crate::command::gamma_correction::lemma_parse_absent(frag);
    crate::command::histogram_stretch::lemma_command_chars(v, 'P');
    crate::command::protocol::lemma_try_from_absent(frag);
    crate::command::histogram_stretch::lemma_command_chars(v, 'S');
    crate::command::pixel_ship::lemma_try_from_absent(frag);
    crate::command::histogram_stretch::lemma_command_chars(v, 'U');
    crate::command::document_filter::lemma_try_from_absent(frag);
    crate::command::histogram_stretch::lemma_command_chars(v, 'V');
    crate::command::blur_image::lemma_try_from_absent(frag);
    crate::command::histogram_stretch::lemma_command_chars(v, 'W');
    crate::command::histogram_ship::lemma_try_from_absent(frag);
}

/// Decoding the prefix followed by one encoded [InvertImage] populates exactly
/// that slot.
pub proof fn lemma_try_from_single_invert_image(v: InvertImage)
    ensures
        ImageShip::spec_try_from("IMGSHP"@ + v.spec_command()) == Ok::<ImageShip, Error>(
            ImageShip {
                invert_image: Some(v),
                ..ImageShip::new_spec()
            },
        ),
{
    reveal_strlit("IMGSHP");
    let frag = v.spec_command();
    let s = "IMGSHP"@ + frag;
    reveal_strlit("1ix");
    reveal_strlit("1iy");
    assert(match_at(s, "IMGSHP"@, 0));
    assert(s.subrange("IMGSHP"@.len() as int, s.len() as int) =~= frag);
    crate::command::invert_image::lemma_round_trip(v);
    crate::command::invert_image::lemma_command_chars(v, 'A');
    crate::command::infinity_filter::lemma_try_from_absent(frag);
    crate::command::invert_image::lemma_command_chars(v, 'C');
    crate::command::compensation::lemma_try_from_absent(frag);
    crate::command::invert_image::lemma_command_chars(v, 'D');
    crate::command::pixel_depth::lemma_try_from_absent(frag);
    crate::command::invert_image::lemma_command_chars(v, 'E');
    crate::command::edge_sharpen::lemma_parse_absent(frag);
    crate::command::invert_image::lemma_command_chars(v, 'H');
    crate::command::histogram_stretch::lemma_try_from_absent(frag);
    crate::command::invert_image::lemma_command_chars(v, 'f');
    crate::command::noise_reduction::lemma_try_from_absent(frag);
    crate::command::invert_image::lemma_command_chars(v, 'r');
    crate::command::image_rotate::lemma_try_from_absent(frag);
    crate::command::invert_image::lemma_command_chars(v, 'J');
    crate::command::jpeg_image_quality::lemma_parse_absent(frag);
    crate::command::invert_image::lemma_command_chars(v, 'K');
    crate::command::gamma_correction::lemma_parse_absent(frag);
    crate::command::invert_image::lemma_command_chars(v, 'P');
    crate::command::protocol::lemma_try_from_absent(frag);
    crate::command::invert_image::lemma_command_chars(v, 'S');
    crate::command::pixel_ship::lemma_try_from_absent(frag);
    crate::command::invert_image::lemma_command_chars(v, 'U');
    crate::command::document_filter::lemma_try_from_absent(frag);
    crate::command::invert_image::lemma_command_chars(v, 'V');
    crate::command::blur_image::lemma_try_from_absent(frag);
    crate::command::invert_image::lemma_command_chars(v, 'W');
    crate::command::histogram_ship::lemma_try_from_absent(frag);
}

/// Decoding the prefix followed by one encoded [NoiseReduction] populates exactly
/// that slot.
pub proof fn lemma_try_from_single_noise_reduction(v: NoiseReduction)
    ensures
        ImageShip::spec_try_from("IMGSHP"@ + v.spec_command()) == Ok::<ImageShip, Error>(
            ImageShip {
                noise_reduction: Some(v),
                ..ImageShip::new_spec()
            },
        ),
{
    reveal_strlit("IMGSHP");
    let frag = v.spec_command();
    let s = "IMGSHP"@ + frag;
    reveal_strlit("0if");
    reveal_strlit("1if");
    assert(match_at(s, "IMGSHP"@, 0));
    assert(s.subrange("IMGSHP"@.len() as int, s.len() as int) =~= frag);
    crate::command::noise_reduction::lemma_round_trip(v);
    crate::command::noise_reduction::lemma_command_chars(v, 'A');
    crate::command::infinity_filter::lemma_try_from_absent(frag);
    crate::command::noise_reduction::lemma_command_chars(v, 'C');
    crate::command::compensation::lemma_try_from_absent(frag);
    crate::command::noise_reduction::lemma_command_chars(v, 'D');
    crate::command::pixel_depth::lemma_try_from_absent(frag);
    crate::command::noise_reduction::lemma_command_chars(v, 'E');
    crate::command::edge_sharpen::lemma_parse_absent(frag);
    crate::command::noise_reduction::lemma_command_chars(v, 'H');
    crate::command::histogram_stretch::lemma_try_from_absent(frag);
    crate::command::noise_reduction::lemma_command_chars(v, 'x');
    crate::command::noise_reduction::lemma_command_chars(v, 'y');
    crate::command::invert_image::lemma_try_from_absent(frag);
    crate::command::noise_reduction::lemma_command_chars(v, 'r');
    crate::command::image_rotate::lemma_try_from_absent(frag);
    crate::command::noise_reduction::lemma_command_chars(v, 'J');
    crate::command::jpeg_image_quality::lemma_parse_absent(frag);
    crate::command::noise_reduction::lemma_command_chars(v, 'K');
    crate::command::gamma_correction::lemma_parse_absent(frag);
    crate::command::noise_reduction::lemma_command_chars(v, 'P');
    crate::command::protocol::lemma_try_from_absent(frag);
    crate::command::noise_reduction::lemma_command_chars(v, 'S');
    crate::command::pixel_ship::lemma_try_from_absent(frag);
    crate::command::noise_reduction::lemma_command_chars(v, 'U');
    crate::command::document_filter::lemma_try_from_absent(frag);
    crate::command::noise_reduction::lemma_command_chars(v, 'V');
    crate::command::blur_image::lemma_try_from_absent(frag);
    crate::command::noise_reduction::lemma_command_chars(v, 'W');
    crate::command::histogram_ship::lemma_try_from_absent(frag);
}

/// Decoding the prefix followed by one encoded [ImageRotate] populates exactly
/// that slot.
pub proof fn lemma_try_from_single_image_rotate(v: ImageRotate)
    ensures
        ImageShip::spec_try_from("IMGSHP"@ + v.spec_command()) == Ok::<ImageShip, Error>(
            ImageShip {
                image_rotate: Some(v),
                ..ImageShip::new_spec()
            },
        ),
{
    reveal_strlit("IMGSHP");
    let frag = v.spec_command();
    let s = "IMGSHP"@ + frag;
    reveal_strlit("0ir");
    reveal_strlit("1ir");
    reveal_strlit("2ir");
    reveal_strlit("3ir");
    assert(match_at(s, "IMGSHP"@, 0));
    assert(s.subrange("IMGSHP"@.len() as int, s.len() as int) =~= frag);
    crate::command::image_rotate::lemma_round_trip(v);
    crate::command::image_rotate::lemma_command_chars(v, 'A');
    crate::command::infinity_filter::lemma_try_from_absent(frag);
    crate::command::image_rotate::lemma_command_chars(v, 'C');
    crate::command::compensation::lemma_try_from_absent(frag);
    crate::command::image_rotate::lemma_command_chars(v, 'D');
    crate::command::pixel_depth::lemma_try_from_absent(frag);
    crate::command::image_rotate::lemma_command_chars(v, 'E');
    crate::command::edge_sharpen::lemma_parse_absent(frag);
    crate::command::image_rotate::lemma_command_chars(v, 'H');
    crate::command::histogram_stretch::lemma_try_from_absent(frag);
    crate::command::image_rotate::lemma_command_chars(v, 'x');
    crate::command::image_rotate::lemma_command_chars(v, 'y');
    crate::command::invert_image::lemma_try_from_absent(frag);
    crate::command::image_rotate::lemma_command_chars(v, 'f');
    crate::command::noise_reduction::lemma_try_from_absent(frag);
    crate::command::image_rotate::lemma_command_chars(v, 'J');
    crate::command::jpeg_image_quality::lemma_parse_absent(frag);
    crate::command::image_rotate::lemma_command_chars(v, 'K');
    crate::command::gamma_correction::lemma_parse_absent(frag);
    crate::command::image_rotate::lemma_command_chars(v, 'P');
    crate::command::protocol::lemma_try_from_absent(frag);
    crate::command::image_rotate::lemma_command_chars(v, 'S');
    crate::command::pixel_ship::lemma_try_from_absent(frag);
    crate::command::image_rotate::lemma_command_chars(v, 'U');
    crate::command::document_filter::lemma_try_from_absent(frag);
    crate::command::image_rotate::lemma_command_chars(v, 'V');
    crate::command::blur_image::lemma_try_from_absent(frag);
    crate::command::image_rotate::lemma_command_chars(v, 'W');
    crate::command::histogram_ship::lemma_try_from_absent(frag);
}

/// Decoding the prefix followed by one encoded [JpegImageQuality] populates exactly
/// that slot.
pub proof fn lemma_try_from_single_jpeg_image_quality(v: JpegImageQuality)
    requires
        v.wf(),
    ensures
        ImageShip::spec_try_from("IMGSHP"@ + v.spec_command()) == Ok::<ImageShip, Error>(
            ImageShip {
                jpeg_image_quality: Some(v),
                ..ImageShip::new_spec()
            },
        ),
{
    reveal_strlit("IMGSHP");
    let frag = v.spec_command();
    let s = "IMGSHP"@ + frag;
    lemma_rendered_chars(v.quality as nat, 'J');
    assert(match_at(s, "IMGSHP"@, 0));
    assert(s.subrange("IMGSHP"@.len() as int, s.len() as int) =~= frag);
    crate::command::jpeg_image_quality::lemma_round_trip(v);
    assert(forall|i: int| 0 <= i < frag.len() ==> frag[i] != 'A');
    crate::command::infinity_filter::lemma_try_from_absent(frag);
    assert(forall|i: int| 0 <= i < frag.len() ==> frag[i] != 'C');
    crate::command::compensation::lemma_try_from_absent(frag);
    assert(forall|i: int| 0 <= i < frag.len() ==> frag[i] != 'D');
    crate::command::pixel_depth::lemma_try_from_absent(frag);
    assert(forall|i: int| 0 <= i < frag.len() ==> frag[i] != 'E');
    crate::command::edge_sharpen::lemma_parse_absent(frag);
    assert(forall|i: int| 0 <= i < frag.len() ==> frag[i] != 'H');
    crate::command::histogram_stretch::lemma_try_from_absent(frag);
    assert(forall|i: int| 0 <= i < frag.len() ==> frag[i] != 'x');
    assert(forall|i: int| 0 <= i < frag.len() ==> frag[i] != 'y');
    crate::command::invert_image::lemma_try_from_absent(frag);
    assert(forall|i: int| 0 <= i < frag.len() ==> frag[i] != 'f');
    crate::command::noise_reduction::lemma_try_from_absent(frag);
    assert(forall|i: int| 0 <= i < frag.len() ==> frag[i] != 'r');
    crate::command::image_rotate::lemma_try_from_absent(frag);
    assert(forall|i: int| 0 <= i < frag.len() ==> frag[i] != 'K');
    crate::command::gamma_correction::lemma_parse_absent(frag);
    assert(forall|i: int| 0 <= i < frag.len() ==> frag[i] != 'P');
    crate::command::protocol::lemma_try_from_absent(frag);
    assert(forall|i: int| 0 <= i < frag.len() ==> frag[i] != 'S');
    crate::command::pixel_ship::lemma_try_from_absent(frag);
    assert(forall|i: int| 0 <= i < frag.len() ==> frag[i] != 'U');
    crate::command::document_filter::lemma_try_from_absent(frag);
    assert(forall|i: int| 0 <= i < frag.len() ==> frag[i] != 'V');
    crate::command::blur_image::lemma_try_from_absent(frag);
    assert(forall|i: int| 0 <= i < frag.len() ==> frag[i] != 'W');
    crate::command::histogram_ship::lemma_try_from_absent(frag);
}

/// Decoding the prefix followed by one encoded [GammaCorrection] populates exactly
/// that slot.
pub proof fn lemma_try_from_single_gamma_correction(v: GammaCorrection)
    requires
        v.wf(),
    ensures
        ImageShip::spec_try_from("IMGSHP"@ + v.spec_command()) == Ok::<ImageShip, Error>(
            ImageShip {
                gamma_correction: Some(v),
                ..ImageShip::new_spec()
            },
        ),
{
    reveal_strlit("IMGSHP");
    let frag = v.spec_command();
    let s = "IMGSHP"@ + frag;
    lemma_rendered_chars(v.factor as nat, 'K');
    assert(match_at(s, "IMGSHP"@, 0));
    assert(s.subrange("IMGSHP"@.len() as int, s.len() as int) =~= frag);
    crate::command::gamma_correction::lemma_round_trip(v);
    assert(forall|i: int| 0 <= i < frag.len() ==> frag[i] != 'A');
    crate::command::infinity_filter::lemma_try_from_absent(frag);
    assert(forall|i: int| 0 <= i < frag.len() ==> frag[i] != 'C');
    crate::command::compensation::lemma_try_from_absent(frag);
    assert(forall|i: int| 0 <= i < frag.len() ==> frag[i] != 'D');
    crate::command::pixel_depth::lemma_try_from_absent(frag);
    assert(forall|i: int| 0 <= i < frag.len() ==> frag[i] != 'E');
    crate::command::edge_sharpen::lemma_parse_absent(frag);
    assert(forall|i: int| 0 <= i < frag.len() ==> frag[i] != 'H');
    crate::command::histogram_stretch::lemma_try_from_absent(frag);
    assert(forall|i: int| 0 <= i < frag.len() ==> frag[i] != 'x');
    assert(forall|i: int| 0 <= i < frag.len() ==> frag[i] != 'y');
    crate::command::invert_image::lemma_try_from_absent(frag);
    assert(forall|i: int| 0 <= i < frag.len() ==> frag[i] != 'f');
    crate::command::noise_reduction::lemma_try_from_absent(frag);
    assert(forall|i: int| 0 <= i < frag.len() ==> frag[i] != 'r');
    crate::command::image_rotate::lemma_try_from_absent(frag);
    assert(forall|i: int| 0 <= i < frag.len() ==> frag[i] != 'J');
    crate::command::jpeg_image_quality::lemma_parse_absent(frag);
    assert(forall|i: int| 0 <= i < frag.len() ==> frag[i] != 'P');
    crate::command::protocol::lemma_try_from_absent(frag);
    assert(forall|i: int| 0 <= i < frag.len() ==> frag[i] != 'S');
    crate::command::pixel_ship::lemma_try_from_absent(frag);
    assert(forall|i: int| 0 <= i < frag.len() ==> frag[i] != 'U');
    crate::command::document_filter::lemma_try_from_absent(frag);
    assert(forall|i: int| 0 <= i < frag.len() ==> frag[i] != 'V');
    crate::command::blur_image::lemma_try_from_absent(frag);
    assert(forall|i: int| 0 <= i < frag.len() ==> frag[i] != 'W');
    crate::command::histogram_ship::lemma_try_from_absent(frag);
}

/// Decoding the prefix followed by one encoded [Protocol] populates exactly
/// that slot.
pub proof fn lemma_try_from_single_protocol(v: Protocol)
    ensures
        ImageShip::spec_try_from("IMGSHP"@ + v.spec_command()) == Ok::<ImageShip, Error>(
            ImageShip {
                protocol: Some(v),
                ..ImageShip::new_spec()
            },
        ),
{
    reveal_strlit("IMGSHP");
    let frag = v.spec_command();
    let s = "IMGSHP"@ + frag;
    reveal_strlit("0P");
    reveal_strlit("2P");
    reveal_strlit("3P");
    reveal_strlit("4P");
    assert(match_at(s, "IMGSHP"@, 0));
    assert(s.subrange("IMGSHP"@.len() as int, s.len() as int) =~= frag);
    crate::command::protocol::lemma_round_trip(v);
    crate::command::protocol::lemma_command_chars(v, 'A');
    crate::command::infinity_filter::lemma_try_from_absent(frag);
    crate::command::protocol::lemma_command_chars(v, 'C');
    crate::command::compensation::lemma_try_from_absent(frag);
    crate::command::protocol::lemma_command_chars(v, 'D');
    crate::command::pixel_depth::lemma_try_from_absent(frag);
    crate::command::protocol::lemma_command_chars(v, 'E');
    crate::command::edge_sharpen::lemma_parse_absent(frag);
    crate::command::protocol::lemma_command_chars(v, 'H');
    crate::command::histogram_stretch::lemma_try_from_absent(frag);
    crate::command::protocol::lemma_command_chars(v, 'x');
    crate::command::protocol::lemma_command_chars(v, 'y');
    crate::command::invert_image::lemma_try_from_absent(frag);
    crate::command::protocol::lemma_command_chars(v, 'f');
    crate::command::noise_reduction::lemma_try_from_absent(frag);
    crate::command::protocol::lemma_command_chars(v, 'r');
    crate::command::image_rotate::lemma_try_from_absent(frag);
    crate::command::protocol::lemma_command_chars(v, 'J');
    crate::command::jpeg_image_quality::lemma_parse_absent(frag);
    crate::command::protocol::lemma_command_chars(v, 'K');
    crate::command::gamma_correction::lemma_parse_absent(frag);
    crate::command::protocol::lemma_command_chars(v, 'S');
    crate::command::pixel_ship::lemma_try_from_absent(frag);
    crate::command::protocol::lemma_command_chars(v, 'U');
    crate::command::document_filter::lemma_try_from_absent(frag);
    crate::command::protocol::lemma_command_chars(v, 'V');
    crate::command::blur_image::lemma_try_from_absent(frag);
    crate::command::protocol::lemma_command_chars(v, 'W');
    crate::command::histogram_ship::lemma_try_from_absent(frag);
}

/// Decoding the prefix followed by one encoded [PixelShip] populates exactly
/// that slot.
pub proof fn lemma_try_from_single_pixel_ship(v: PixelShip)
    ensures
        ImageShip::spec_try_from("IMGSHP"@ + v.spec_command()) == Ok::<ImageShip, Error>(
            ImageShip {
                pixel_ship: Some(v),
                ..ImageShip::new_spec()
            },
        ),
{
    reveal_strlit("IMGSHP");
    let frag = v.spec_command();
    let s = "IMGSHP"@ + frag;
    reveal_strlit("1S");
    reveal_strlit("2S");
    reveal_strlit("3S");
    assert(match_at(s, "IMGSHP"@, 0));
    assert(s.subrange("IMGSHP"@.len() as int, s.len() as int) =~= frag);
    crate::command::pixel_ship::lemma_round_trip(v);
    crate::command::pixel_ship::lemma_command_chars(v, 'A');
    crate::command::infinity_filter::lemma_try_from_absent(frag);
    crate::command::pixel_ship::lemma_command_chars(v, 'C');
    crate::command::compensation::lemma_try_from_absent(frag);
    crate::command::pixel_ship::lemma_command_chars(v, 'D');
    crate::command::pixel_depth::lemma_try_from_absent(frag);
    crate::command::pixel_ship::lemma_command_chars(v, 'E');
    crate::command::edge_sharpen::lemma_parse_absent(frag);
    crate::command::pixel_ship::lemma_command_chars(v, 'H');
    crate::command::histogram_stretch::lemma_try_from_absent(frag);
    crate::command::pixel_ship::lemma_command_chars(v, 'x');
    crate::command::pixel_ship::lemma_command_chars(v, 'y');
    crate::command::invert_image::lemma_try_from_absent(frag);
    crate::command::pixel_ship::lemma_command_chars(v, 'f');
    crate::command::noise_reduction::lemma_try_from_absent(frag);
    crate::command::pixel_ship::lemma_command_chars(v, 'r');
    crate::command::image_rotate::lemma_try_from_absent(frag);
    crate::command::pixel_ship::lemma_command_chars(v, 'J');
    crate::command::jpeg_image_quality::lemma_parse_absent(frag);
    crate::command::pixel_ship::lemma_command_chars(v, 'K');
    crate::command::gamma_correction::lemma_parse_absent(frag);
    crate::command::pixel_ship::lemma_command_chars(v, 'P');
    crate::command::protocol::lemma_try_from_absent(frag);
    crate::command::pixel_ship::lemma_command_chars(v, 'U');
    crate::command::document_filter::lemma_try_from_absent(frag);
    crate::command::pixel_ship::lemma_command_chars(v, 'V');
    crate::command::blur_image::lemma_try_from_absent(frag);
    crate::command::pixel_ship::lemma_command_chars(v, 'W');
    crate::command::histogram_ship::lemma_try_from_absent(frag);
}

/// Decoding the prefix followed by one encoded [DocumentFilter] populates exactly
/// that slot.
pub proof fn lemma_try_from_single_document_filter(v: DocumentFilter)
    ensures
        ImageShip::spec_try_from("IMGSHP"@ + v.spec_command()) == Ok::<ImageShip, Error>(
            ImageShip {
                document_filter: Some(v),
                ..ImageShip::new_spec()
            },
        ),
{
    reveal_strlit("IMGSHP");
    let frag = v.spec_command();
    let s = "IMGSHP"@ + frag;
    lemma_rendered_chars(v.threshold as nat, 'U');
    assert(match_at(s, "IMGSHP"@, 0));
    assert(s.subrange("IMGSHP"@.len() as int, s.len() as int) =~= frag);
    crate::command::document_filter::lemma_round_trip(v);
    assert(forall|i: int| 0 <= i < frag.len() ==> frag[i] != 'A');
    crate::command::infinity_filter::lemma_try_from_absent(frag);
    assert(forall|i: int| 0 <= i < frag.len() ==> frag[i] != 'C');
    crate::command::compensation::lemma_try_from_absent(frag);
    assert(forall|i: int| 0 <= i < frag.len() ==> frag[i] != 'D');
    crate::command::pixel_depth::lemma_try_from_absent(frag);
    assert(forall|i: int| 0 <= i < frag.len() ==> frag[i] != 'E');
    crate::command::edge_sharpen::lemma_parse_absent(frag);
    assert(forall|i: int| 0 <= i < frag.len() ==> frag[i] != 'H');
    crate::command::histogram_stretch::lemma_try_from_absent(frag);
    assert(forall|i: int| 0 <= i < frag.len() ==> frag[i] != 'x');
    assert(forall|i: int| 0 <= i < frag.len() ==> frag[i] != 'y');
    crate::command::invert_image::lemma_try_from_absent(frag);
    assert(forall|i: int| 0 <= i < frag.len() ==> frag[i] != 'f');
    crate::command::noise_reduction::lemma_try_from_absent(frag);
    assert(forall|i: int| 0 <= i < frag.len() ==> frag[i] != 'r');
    crate::command::image_rotate::lemma_try_from_absent(frag);
    assert(forall|i: int| 0 <= i < frag.len() ==> frag[i] != 'J');
    crate::command::jpeg_image_quality::lemma_parse_absent(frag);
    assert(forall|i: int| 0 <= i < frag.len() ==> frag[i] != 'K');
    crate::command::gamma_correction::lemma_parse_absent(frag);
    assert(forall|i: int| 0 <= i < frag.len() ==> frag[i] != 'P');
    crate::command::protocol::lemma_try_from_absent(frag);
    assert(forall|i: int| 0 <= i < frag.len() ==> frag[i] != 'S');
    crate::command::pixel_ship::lemma_try_from_absent(frag);
    assert(forall|i: int| 0 <= i < frag.len() ==> frag[i] != 'V');
    crate::command::blur_image::lemma_try_from_absent(frag);
    assert(forall|i: int| 0 <= i < frag.len() ==> frag[i] != 'W');
    crate::command::histogram_ship::lemma_try_from_absent(frag);
}

/// Decoding the prefix followed by one encoded [BlurImage] populates exactly
/// that slot.
pub proof fn lemma_try_from_single_blur_image(v: BlurImage)
    ensures
        ImageShip::spec_try_from("IMGSHP"@ + v.spec_command()) == Ok::<ImageShip, Error>(
            ImageShip {
                blur_image: Some(v),
                ..ImageShip::new_spec()
            },
        ),
{
    reveal_strlit("IMGSHP");
    let frag = v.spec_command();
    let s = "IMGSHP"@ + frag;
    reveal_strlit("0V");
    reveal_strlit("1V");
    assert(match_at(s, "IMGSHP"@, 0));
    assert(s.subrange("IMGSHP"@.len() as int, s.len() as int) =~= frag);
    crate::command::blur_image::lemma_round_trip(v);
    crate::command::blur_image::lemma_command_chars(v, 'A');
    crate::command::infinity_filter::lemma_try_from_absent(frag);
    crate::command::blur_image::lemma_command_chars(v, 'C');
    crate::command::compensation::lemma_try_from_absent(frag);
    crate::command::blur_image::lemma_command_chars(v, 'D');
    crate::command::pixel_depth::lemma_try_from_absent(frag);
    crate::command::blur_image::lemma_command_chars(v, 'E');
    crate::command::edge_sharpen::lemma_parse_absent(frag);
    crate::command::blur_image::lemma_command_chars(v, 'H');
    crate::command::histogram_stretch::lemma_try_from_absent(frag);
    crate::command::blur_image::lemma_command_chars(v, 'x');
    crate::command::blur_image::lemma_command_chars(v, 'y');
    crate::command::invert_image::lemma_try_from_absent(frag);
    crate::command::blur_image::lemma_command_chars(v, 'f');
    crate::command::noise_reduction::lemma_try_from_absent(frag);
    crate::command::blur_image::lemma_command_chars(v, 'r');
    crate::command::image_rotate::lemma_try_from_absent(frag);
    crate::command::blur_image::lemma_command_chars(v, 'J');
    crate::command::jpeg_image_quality::lemma_parse_absent(frag);
    crate::command::blur_image::lemma_command_chars(v, 'K');
    crate::command::gamma_correction::lemma_parse_absent(frag);
    crate::command::blur_image::lemma_command_chars(v, 'P');
    crate::command::protocol::lemma_try_from_absent(frag);
    crate::command::blur_image::lemma_command_chars(v, 'S');
    crate::command::pixel_ship::lemma_try_from_absent(frag);
    crate::command::blur_image::lemma_command_chars(v, 'U');
    crate::command::document_filter::lemma_try_from_absent(frag);
    crate::command::blur_image::lemma_command_chars(v, 'W');
    crate::command::histogram_ship::lemma_try_from_absent(frag);
}

/// Decoding the prefix followed by one encoded [HistogramShip] populates exactly
/// that slot.
pub proof fn lemma_try_from_single_histogram_ship(v: HistogramShip)
    ensures
        ImageShip::spec_try_from("IMGSHP"@ + v.spec_command()) == Ok::<ImageShip, Error>(
            ImageShip {
                histogram_ship: Some(v),
                ..ImageShip::new_spec()
            },
        ),
{
    reveal_strlit("IMGSHP");
    let frag = v.spec_command();
    let s = "IMGSHP"@ + frag;
    reveal_strlit("0W");
    reveal_strlit("1W");
    assert(match_at(s, "IMGSHP"@, 0));
    assert(s.subrange("IMGSHP"@.len() as int, s.len() as int) =~= frag);
    crate::command::histogram_ship::lemma_round_trip(v);
    crate::command::histogram_ship::lemma_command_chars(v, 'A');
    crate::command::infinity_filter::lemma_try_from_absent(frag);
    crate::command::histogram_ship::lemma_command_chars(v, 'C');
    crate::command::compensation::lemma_try_from_absent(frag);
    crate::command::histogram_ship::lemma_command_chars(v, 'D');
    crate::command::pixel_depth::lemma_try_from_absent(frag);
    crate::command::histogram_ship::lemma_command_chars(v, 'E');
    crate::command::edge_sharpen::lemma_parse_absent(frag);
    crate::command::histogram_ship::lemma_command_chars(v, 'H');
    crate::command::histogram_stretch::lemma_try_from_absent(frag);
    crate::command::histogram_ship::lemma_command_chars(v, 'x');
    crate::command::histogram_ship::lemma_command_chars(v, 'y');
    crate::command::invert_image::lemma_try_from_absent(frag);
    crate::command::histogram_ship::lemma_command_chars(v, 'f');
    crate::command::noise_reduction::lemma_try_from_absent(frag);
    crate::command::histogram_ship::lemma_command_chars(v, 'r');
    crate::command::image_rotate::lemma_try_from_absent(frag);
    crate::command::histogram_ship::lemma_command_chars(v, 'J');
    crate::command::jpeg_image_quality::lemma_parse_absent(frag);
    crate::command::histogram_ship::lemma_command_chars(v, 'K');
    crate::command::gamma_correction::lemma_parse_absent(frag);
    crate::command::histogram_ship::lemma_command_chars(v, 'P');
    crate::command::protocol::lemma_try_from_absent(frag);
    crate::command::histogram_ship::lemma_command_chars(v, 'S');
    crate::command::pixel_ship::lemma_try_from_absent(frag);
    crate::command::histogram_ship::lemma_command_chars(v, 'U');
    crate::command::document_filter::lemma_try_from_absent(frag);
    crate::command::histogram_ship::lemma_command_chars(v, 'V');
    crate::command::blur_image::lemma_try_from_absent(frag);
}

} // verus!
