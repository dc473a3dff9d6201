//! The image snap modifier command group.

use vstd::prelude::*;

use crate::result::Error;
use crate::text::lemma_rendered_chars;
use crate::text::match_at;
use crate::text::str_starts_with;
use crate::command::beeper::Beeper;
use crate::command::delta_for_acceptance::DeltaForAcceptance;
use crate::command::exposure::Exposure;
use crate::command::gain::Gain;
use crate::command::imaging_style::ImagingStyle;
use crate::command::led::LED;
use crate::command::target_set_point::TargetSetPoint;
use crate::command::target_white_value::TargetWhiteValue;
use crate::command::update_tries::UpdateTries;
use crate::command::wait_for_trigger::WaitForTrigger;

verus! {

/// Configure all barcode `Image Snap` encodings.
///
/// Each slot is independently optional; an unset slot contributes nothing
/// to the encoded command and is left unset by decoding.
#[derive(Clone, Copy, Debug, Eq, PartialEq)]
pub struct ImageSnap {
    /// The optional imaging style slot.
    pub imaging_style: Option<ImagingStyle>,
    /// The optional beeper slot.
    pub beeper: Option<Beeper>,
    /// The optional wait for trigger slot.
    pub wait_for_trigger: Option<WaitForTrigger>,
    /// The optional led slot.
    pub led: Option<LED>,
    /// The optional exposure slot.
    pub exposure: Option<Exposure>,
    /// The optional gain slot.
    pub gain: Option<Gain>,
    /// The optional target white value slot.
    pub target_white_value: Option<TargetWhiteValue>,
    /// The optional delta for acceptance slot.
    pub delta_for_acceptance: Option<DeltaForAcceptance>,
    /// The optional update tries slot.
    pub update_tries: Option<UpdateTries>,
    /// The optional target set point slot.
    pub target_set_point: Option<TargetSetPoint>,
}

impl ImageSnap {
    /// The encoded command: the `IMGSNP` prefix, then every populated slot
    /// in fixed declared order.  An empty slot contributes nothing.
    pub open spec fn spec_command(self) -> Seq<char> {
        "IMGSNP"@ + (match self.imaging_style { Some(v) => v.spec_command(), None => Seq::<char>::empty() })
            + (match self.beeper { Some(v) => v.spec_command(), None => Seq::<char>::empty() })
            + (match self.wait_for_trigger { Some(v) => v.spec_command(), None => Seq::<char>::empty() })
            + (match self.led { Some(v) => v.spec_command(), None => Seq::<char>::empty() })
            + (match self.exposure { Some(v) => v.spec_command(), None => Seq::<char>::empty() })
            + (match self.gain { Some(v) => v.spec_command(), None => Seq::<char>::empty() })
            + (match self.target_white_value { Some(v) => v.spec_command(), None => Seq::<char>::empty() })
            + (match self.delta_for_acceptance { Some(v) => v.spec_command(), None => Seq::<char>::empty() })
            + (match self.update_tries { Some(v) => v.spec_command(), None => Seq::<char>::empty() })
            + (match self.target_set_point { Some(v) => v.spec_command(), None => Seq::<char>::empty() })
    }

    /// Decoding: the input must start with the `IMGSNP` prefix; then every
    /// slot type is tried, independently, against the entire remainder, and
    /// populates its slot only if its own decoding succeeds.
    pub open spec fn spec_try_from(s: Seq<char>) -> Result<ImageSnap, Error> {
        if !match_at(s, "IMGSNP"@, 0) {
            Err(Error::InvalidVariant)
        } else {
            let rem = s.subrange("IMGSNP"@.len() as int, s.len() as int);
            Ok(ImageSnap {
                imaging_style: ImagingStyle::spec_try_from(rem).ok(),
                beeper: Beeper::spec_try_from(rem).ok(),
                wait_for_trigger: WaitForTrigger::spec_try_from(rem).ok(),
                led: LED::spec_try_from(rem).ok(),
                exposure: Exposure::spec_parse(rem).ok(),
                gain: Gain::spec_try_from(rem).ok(),
                target_white_value: TargetWhiteValue::spec_parse(rem).ok(),
                delta_for_acceptance: DeltaForAcceptance::spec_parse(rem).ok(),
                update_tries: UpdateTries::spec_parse(rem).ok(),
                target_set_point: TargetSetPoint::spec_parse(rem).ok(),
            })
        }
    }

    /// Creates a new [ImageSnap] with every slot unset.
    pub fn new() -> (r: Self)
        ensures
            r == (ImageSnap {
                imaging_style: None::<ImagingStyle>,
                beeper: None::<Beeper>,
                wait_for_trigger: None::<WaitForTrigger>,
                led: None::<LED>,
                exposure: None::<Exposure>,
                gain: None::<Gain>,
                target_white_value: None::<TargetWhiteValue>,
                delta_for_acceptance: None::<DeltaForAcceptance>,
                update_tries: None::<UpdateTries>,
                target_set_point: None::<TargetSetPoint>,
            }),
    {
        Self {
            imaging_style: None,
            beeper: None,
            wait_for_trigger: None,
            led: None,
            exposure: None,
            gain: None,
            target_white_value: None,
            delta_for_acceptance: None,
            update_tries: None,
            target_set_point: None,
        }
    }

    /// Gets the ASCII serial command code for [ImageSnap].
    pub fn command(&self) -> (r: String)
        ensures
            r@ == self.spec_command(),
    {
        let ghost m0 = (match self.imaging_style { Some(v) => v.spec_command(), None => Seq::<char>::empty() });
        let ghost m1 = (match self.beeper { Some(v) => v.spec_command(), None => Seq::<char>::empty() });
        let ghost m2 = (match self.wait_for_trigger { Some(v) => v.spec_command(), None => Seq::<char>::empty() });
        let ghost m3 = (match self.led { Some(v) => v.spec_command(), None => Seq::<char>::empty() });
        let ghost m4 = (match self.exposure { Some(v) => v.spec_command(), None => Seq::<char>::empty() });
        let ghost m5 = (match self.gain { Some(v) => v.spec_command(), None => Seq::<char>::empty() });
        let ghost m6 = (match self.target_white_value { Some(v) => v.spec_command(), None => Seq::<char>::empty() });
        let ghost m7 = (match self.delta_for_acceptance { Some(v) => v.spec_command(), None => Seq::<char>::empty() });
        let ghost m8 = (match self.update_tries { Some(v) => v.spec_command(), None => Seq::<char>::empty() });
        let ghost m9 = (match self.target_set_point { Some(v) => v.spec_command(), None => Seq::<char>::empty() });
        let frag0 = match &self.imaging_style {
            Some(v) => String::from_str(v.command()),
            None => String::new(),
        };
        proof {
            assert(frag0@ == m0);
        }
        let frag1 = match &self.beeper {
            Some(v) => String::from_str(v.command()),
            None => String::new(),
        };
        proof {
            assert(frag1@ == m1);
        }
        let frag2 = match &self.wait_for_trigger {
            Some(v) => String::from_str(v.command()),
            None => String::new(),
        };
        proof {
            assert(frag2@ == m2);
        }
        let frag3 = match &self.led {
            Some(v) => String::from_str(v.command()),
            None => String::new(),
        };
        proof {
            assert(frag3@ == m3);
        }
        let frag4 = match &self.exposure {
            Some(v) => v.command(),
            None => String::new(),
        };
        proof {
            assert(frag4@ == m4);
        }
        let frag5 = match &self.gain {
            Some(v) => String::from_str(v.command()),
            None => String::new(),
        };
        proof {
            assert(frag5@ == m5);
        }
        let frag6 = match &self.target_white_value {
            Some(v) => v.command(),
            None => String::new(),
        };
        proof {
            assert(frag6@ == m6);
        }
        let frag7 = match &self.delta_for_acceptance {
            Some(v) => v.command(),
            None => String::new(),
        };
        proof {
            assert(frag7@ == m7);
        }
        let frag8 = match &self.update_tries {
            Some(v) => v.command(),
            None => String::new(),
        };
        proof {
            assert(frag8@ == m8);
        }
        let frag9 = match &self.target_set_point {
            Some(v) => v.command(),
            None => String::new(),
        };
        proof {
            assert(frag9@ == m9);
        }
        let mut out = String::from_str("IMGSNP");
        out.append(frag0.as_str());
        out.append(frag1.as_str());
        out.append(frag2.as_str());
        out.append(frag3.as_str());
        out.append(frag4.as_str());
        out.append(frag5.as_str());
        out.append(frag6.as_str());
        out.append(frag7.as_str());
        out.append(frag8.as_str());
        out.append(frag9.as_str());
        proof {
            assert(out@ == self.spec_command());
        }
        out
    }

    /// Decodes an [ImageSnap] from a string: the `IMGSNP` prefix is required,
    /// and each slot is then populated from the remainder if its own
    /// decoding succeeds there.
    pub fn try_from(val: &str) -> (r: Result<Self, Error>)
        ensures
            r == ImageSnap::spec_try_from(val@),
    {
        proof {
            reveal_strlit("IMGSNP");
        }
        if !str_starts_with(val, "IMGSNP") {
            return Err(Error::InvalidVariant);
        }
        let n = val.unicode_len();
        let rem = val.substring_char(6, n);
        Ok(Self {
            imaging_style: ImagingStyle::try_from(rem).ok(),
            beeper: Beeper::try_from(rem).ok(),
            wait_for_trigger: WaitForTrigger::try_from(rem).ok(),
            led: LED::try_from(rem).ok(),
            exposure: Exposure::try_from(rem).ok(),
            gain: Gain::try_from(rem).ok(),
            target_white_value: TargetWhiteValue::try_from(rem).ok(),
            delta_for_acceptance: DeltaForAcceptance::try_from(rem).ok(),
            update_tries: UpdateTries::try_from(rem).ok(),
            target_set_point: TargetSetPoint::try_from(rem).ok(),
        })
    }
}

impl ImageSnap {
    /// Gets the [ImagingStyle] slot of this [ImageSnap].
    pub fn imaging_style(&self) -> (r: Option<ImagingStyle>)
        ensures
            r == self.imaging_style,
    {
        self.imaging_style
    }

    /// Sets the [ImagingStyle] slot; every other slot is unchanged.
    pub fn set_imaging_style(&mut self, val: ImagingStyle)
        ensures
            *final(self) == (ImageSnap { imaging_style: Some(val), ..*old(self) }),
    {
        self.imaging_style = Some(val);
    }

    /// Unsets the [ImagingStyle] slot; every other slot is unchanged.
    pub fn unset_imaging_style(&mut self)
        ensures
            *final(self) == (ImageSnap { imaging_style: None::<ImagingStyle>, ..*old(self) }),
    {
        self.imaging_style = None;
    }

    /// Builder: returns a copy with the [ImagingStyle] slot set and every
    /// other slot carried over unchanged.
    pub fn with_imaging_style(self, val: ImagingStyle) -> (r: Self)
        ensures
            r == (ImageSnap { imaging_style: Some(val), ..self }),
    {
        Self { imaging_style: Some(val), ..self }
    }
}

impl ImageSnap {
    /// Gets the [Beeper] slot of this [ImageSnap].
    pub fn beeper(&self) -> (r: Option<Beeper>)
        ensures
            r == self.beeper,
    {
        self.beeper
    }

    /// Sets the [Beeper] slot; every other slot is unchanged.
    pub fn set_beeper(&mut self, val: Beeper)
        ensures
            *final(self) == (ImageSnap { beeper: Some(val), ..*old(self) }),
    {
        self.beeper = Some(val);
    }

    /// Unsets the [Beeper] slot; every other slot is unchanged.
    pub fn unset_beeper(&mut self)
        ensures
            *final(self) == (ImageSnap { beeper: None::<Beeper>, ..*old(self) }),
    {
        self.beeper = None;
    }

    /// Builder: returns a copy with the [Beeper] slot set and every
    /// other slot carried over unchanged.
    pub fn with_beeper(self, val: Beeper) -> (r: Self)
        ensures
            r == (ImageSnap { beeper: Some(val), ..self }),
    {
        Self { beeper: Some(val), ..self }
    }
}

impl ImageSnap {
    /// Gets the [WaitForTrigger] slot of this [ImageSnap].
    pub fn wait_for_trigger(&self) -> (r: Option<WaitForTrigger>)
        ensures
            r == self.wait_for_trigger,
    {
        self.wait_for_trigger
    }

    /// Sets the [WaitForTrigger] slot; every other slot is unchanged.
    pub fn set_wait_for_trigger(&mut self, val: WaitForTrigger)
        ensures
            *final(self) == (ImageSnap { wait_for_trigger: Some(val), ..*old(self) }),
    {
        self.wait_for_trigger = Some(val);
    }

    /// Unsets the [WaitForTrigger] slot; every other slot is unchanged.
    pub fn unset_wait_for_trigger(&mut self)
        ensures
            *final(self) == (ImageSnap { wait_for_trigger: None::<WaitForTrigger>, ..*old(self) }),
    {
        self.wait_for_trigger = None;
    }

    /// Builder: returns a copy with the [WaitForTrigger] slot set and every
    /// other slot carried over unchanged.
    pub fn with_wait_for_trigger(self, val: WaitForTrigger) -> (r: Self)
        ensures
            r == (ImageSnap { wait_for_trigger: Some(val), ..self }),
    {
        Self { wait_for_trigger: Some(val), ..self }
    }
}

impl ImageSnap {
    /// Gets the [LED] slot of this [ImageSnap].
    pub fn led(&self) -> (r: Option<LED>)
        ensures
            r == self.led,
    {
        self.led
    }

    /// Sets the [LED] slot; every other slot is unchanged.
    pub fn set_led(&mut self, val: LED)
        ensures
            *final(self) == (ImageSnap { led: Some(val), ..*old(self) }),
    {
        self.led = Some(val);
    }

    /// Unsets the [LED] slot; every other slot is unchanged.
    pub fn unset_led(&mut self)
        ensures
            *final(self) == (ImageSnap { led: None::<LED>, ..*old(self) }),
    {
        self.led = None;
    }

    /// Builder: returns a copy with the [LED] slot set and every
    /// other slot carried over unchanged.
    pub fn with_led(self, val: LED) -> (r: Self)
        ensures
            r == (ImageSnap { led: Some(val), ..self }),
    {
        Self { led: Some(val), ..self }
    }
}

impl ImageSnap {
    /// Gets the [Exposure] slot of this [ImageSnap].
    pub fn exposure(&self) -> (r: Option<Exposure>)
        ensures
            r == self.exposure,
    {
        self.exposure
    }

    /// Sets the [Exposure] slot; every other slot is unchanged.
    pub fn set_exposure(&mut self, val: Exposure)
        ensures
            *final(self) == (ImageSnap { exposure: Some(val), ..*old(self) }),
    {
        self.exposure = Some(val);
    }

    /// Unsets the [Exposure] slot; every other slot is unchanged.
    pub fn unset_exposure(&mut self)
        ensures
            *final(self) == (ImageSnap { exposure: None::<Exposure>, ..*old(self) }),
    {
        self.exposure = None;
    }

    /// Builder: returns a copy with the [Exposure] slot set and every
    /// other slot carried over unchanged.
    pub fn with_exposure(self, val: Exposure) -> (r: Self)
        ensures
            r == (ImageSnap { exposure: Some(val), ..self }),
    {
        Self { exposure: Some(val), ..self }
    }
}

impl ImageSnap {
    /// Gets the [Gain] slot of this [ImageSnap].
    pub fn gain(&self) -> (r: Option<Gain>)
        ensures
            r == self.gain,
    {
        self.gain
    }

    /// Sets the [Gain] slot; every other slot is unchanged.
    pub fn set_gain(&mut self, val: Gain)
        ensures
            *final(self) == (ImageSnap { gain: Some(val), ..*old(self) }),
    {
        self.gain = Some(val);
    }

    /// Unsets the [Gain] slot; every other slot is unchanged.
    pub fn unset_gain(&mut self)
        ensures
            *final(self) == (ImageSnap { gain: None::<Gain>, ..*old(self) }),
    {
        self.gain = None;
    }

    /// Builder: returns a copy with the [Gain] slot set and every
    /// other slot carried over unchanged.
    pub fn with_gain(self, val: Gain) -> (r: Self)
        ensures
            r == (ImageSnap { gain: Some(val), ..self }),
    {
        Self { gain: Some(val), ..self }
    }
}

impl ImageSnap {
    /// Gets the [TargetWhiteValue] slot of this [ImageSnap].
    pub fn target_white_value(&self) -> (r: Option<TargetWhiteValue>)
        ensures
            r == self.target_white_value,
    {
        self.target_white_value
    }

    /// Sets the [TargetWhiteValue] slot; every other slot is unchanged.
    pub fn set_target_white_value(&mut self, val: TargetWhiteValue)
        ensures
            *final(self) == (ImageSnap { target_white_value: Some(val), ..*old(self) }),
    {
        self.target_white_value = Some(val);
    }

    /// Unsets the [TargetWhiteValue] slot; every other slot is unchanged.
    pub fn unset_target_white_value(&mut self)
        ensures
            *final(self) == (ImageSnap { target_white_value: None::<TargetWhiteValue>, ..*old(self) }),
    {
        self.target_white_value = None;
    }

    /// Builder: returns a copy with the [TargetWhiteValue] slot set and every
    /// other slot carried over unchanged.
    pub fn with_target_white_value(self, val: TargetWhiteValue) -> (r: Self)
        ensures
            r == (ImageSnap { target_white_value: Some(val), ..self }),
    {
        Self { target_white_value: Some(val), ..self }
    }
}

impl ImageSnap {
    /// Gets the [DeltaForAcceptance] slot of this [ImageSnap].
    pub fn delta_for_acceptance(&self) -> (r: Option<DeltaForAcceptance>)
        ensures
            r == self.delta_for_acceptance,
    {
        self.delta_for_acceptance
    }

    /// Sets the [DeltaForAcceptance] slot; every other slot is unchanged.
    pub fn set_delta_for_acceptance(&mut self, val: DeltaForAcceptance)
        ensures
            *final(self) == (ImageSnap { delta_for_acceptance: Some(val), ..*old(self) }),
    {
        self.delta_for_acceptance = Some(val);
    }

    /// Unsets the [DeltaForAcceptance] slot; every other slot is unchanged.
    pub fn unset_delta_for_acceptance(&mut self)
        ensures
            *final(self) == (ImageSnap { delta_for_acceptance: None::<DeltaForAcceptance>, ..*old(self) }),
    {
        self.delta_for_acceptance = None;
    }

    /// Builder: returns a copy with the [DeltaForAcceptance] slot set and every
    /// other slot carried over unchanged.
    pub fn with_delta_for_acceptance(self, val: DeltaForAcceptance) -> (r: Self)
        ensures
            r == (ImageSnap { delta_for_acceptance: Some(val), ..self }),
    {
        Self { delta_for_acceptance: Some(val), ..self }
    }
}

impl ImageSnap {
    /// Gets the [UpdateTries] slot of this [ImageSnap].
    pub fn update_tries(&self) -> (r: Option<UpdateTries>)
        ensures
            r == self.update_tries,
    {
        self.update_tries
    }

    /// Sets the [UpdateTries] slot; every other slot is unchanged.
    pub fn set_update_tries(&mut self, val: UpdateTries)
        ensures
            *final(self) == (ImageSnap { update_tries: Some(val), ..*old(self) }),
    {
        self.update_tries = Some(val);
    }

    /// Unsets the [UpdateTries] slot; every other slot is unchanged.
    pub fn unset_update_tries(&mut self)
        ensures
            *final(self) == (ImageSnap { update_tries: None::<UpdateTries>, ..*old(self) }),
    {
        self.update_tries = None;
    }

    /// Builder: returns a copy with the [UpdateTries] slot set and every
    /// other slot carried over unchanged.
    pub fn with_update_tries(self, val: UpdateTries) -> (r: Self)
        ensures
            r == (ImageSnap { update_tries: Some(val), ..self }),
    {
        Self { update_tries: Some(val), ..self }
    }
}

impl ImageSnap {
    /// Gets the [TargetSetPoint] slot of this [ImageSnap].
    pub fn target_set_point(&self) -> (r: Option<TargetSetPoint>)
        ensures
            r == self.target_set_point,
    {
        self.target_set_point
    }

    /// Sets the [TargetSetPoint] slot; every other slot is unchanged.
    pub fn set_target_set_point(&mut self, val: TargetSetPoint)
        ensures
            *final(self) == (ImageSnap { target_set_point: Some(val), ..*old(self) }),
    {
        self.target_set_point = Some(val);
    }

    /// Unsets the [TargetSetPoint] slot; every other slot is unchanged.
    pub fn unset_target_set_point(&mut self)
        ensures
            *final(self) == (ImageSnap { target_set_point: None::<TargetSetPoint>, ..*old(self) }),
    {
        self.target_set_point = None;
    }

    /// Builder: returns a copy with the [TargetSetPoint] slot set and every
    /// other slot carried over unchanged.
    pub fn with_target_set_point(self, val: TargetSetPoint) -> (r: Self)
        ensures
            r == (ImageSnap { target_set_point: Some(val), ..self }),
    {
        Self { target_set_point: Some(val), ..self }
    }
}

impl Default for ImageSnap {
    fn default() -> (r: Self)
        ensures
            r == ImageSnap::new_spec(),
    {
        Self::new()
    }
}

impl ImageSnap {
    /// The all-unset group value.
    pub open spec fn new_spec() -> Self {
        ImageSnap {
            imaging_style: None::<ImagingStyle>,
            beeper: None::<Beeper>,
            wait_for_trigger: None::<WaitForTrigger>,
            led: None::<LED>,
            exposure: None::<Exposure>,
            gain: None::<Gain>,
            target_white_value: None::<TargetWhiteValue>,
            delta_for_acceptance: None::<DeltaForAcceptance>,
            update_tries: None::<UpdateTries>,
            target_set_point: None::<TargetSetPoint>,
        }
    }
}

/// The encoded command depends only on which slots are populated and with
/// what: any order of `set_*` calls that leaves the same slots set yields
/// the same command string, emitted in declared order.
pub proof fn lemma_command_emission_order(a: ImageSnap, b: ImageSnap)
    requires
        a.imaging_style == b.imaging_style,
        a.beeper == b.beeper,
        a.wait_for_trigger == b.wait_for_trigger,
        a.led == b.led,
        a.exposure == b.exposure,
        a.gain == b.gain,
        a.target_white_value == b.target_white_value,
        a.delta_for_acceptance == b.delta_for_acceptance,
        a.update_tries == b.update_tries,
        a.target_set_point == b.target_set_point,
    ensures
        a.spec_command() == b.spec_command(),
{
    assert(a == b);
}

/// Decoding any string that does not start with the group prefix fails,
/// whatever follows.
pub proof fn lemma_try_from_requires_prefix(s: Seq<char>)
    requires
        !match_at(s, "IMGSNP"@, 0),
    ensures
        ImageSnap::spec_try_from(s) == Err::<ImageSnap, Error>(Error::InvalidVariant),
{
}

/// Decoding the bare prefix yields the group with every slot unset.
pub proof fn lemma_try_from_bare_prefix()
    ensures
        ImageSnap::spec_try_from("IMGSNP"@) == Ok::<ImageSnap, Error>(ImageSnap::new_spec()),
{
    reveal_strlit("IMGSNP");
    let s = "IMGSNP"@;
    assert(match_at(s, "IMGSNP"@, 0));
    let rem = s.subrange(s.len() as int, s.len() as int);
    assert(rem =~= Seq::<char>::empty());
    crate::command::imaging_style::lemma_try_from_absent(rem);
    crate::command::beeper::lemma_try_from_absent(rem);
    crate::command::wait_for_trigger::lemma_try_from_absent(rem);
    crate::command::led::lemma_try_from_absent(rem);
    crate::command::exposure::lemma_try_from_absent(rem);
    crate::command::gain::lemma_try_from_absent(rem);
    crate::command::target_white_value::lemma_try_from_absent(rem);
    crate::command::delta_for_acceptance::lemma_try_from_absent(rem);
    crate::command::update_tries::lemma_try_from_absent(rem);
    crate::command::target_set_point::lemma_try_from_absent(rem);
}

/// Decoding the prefix followed by one encoded [ImagingStyle] populates exactly
/// that slot.
pub proof fn lemma_try_from_single_imaging_style(v: ImagingStyle)
    ensures
        ImageSnap::spec_try_from("IMGSNP"@ + v.spec_command()) == Ok::<ImageSnap, Error>(
            ImageSnap {
                imaging_style: Some(v),
                ..ImageSnap::new_spec()
            },
        ),
{
    reveal_strlit("IMGSNP");
    let frag = v.spec_command();
    let s = "IMGSNP"@ + frag;
    reveal_strlit("0P");
    reveal_strlit("1P");
    reveal_strlit("2P");
    assert(match_at(s, "IMGSNP"@, 0));
    assert(s.subrange("IMGSNP"@.len() as int, s.len() as int) =~= frag);
    crate::command::imaging_style::lemma_round_trip(v);
    crate::command::imaging_style::lemma_command_chars(v, 'B');
    crate::command::beeper::lemma_try_from_absent(frag);
    crate::command::imaging_style::lemma_command_chars(v, 'T');
    crate::command::wait_for_trigger::lemma_try_from_absent(frag);
    crate::command::imaging_style::lemma_command_chars(v, 'L');
    crate::command::led::lemma_try_from_absent(frag);
    crate::command::imaging_style::lemma_command_chars(v, 'E');
    crate::command::exposure::lemma_try_from_absent(frag);
    crate::command::imaging_style::lemma_command_chars(v, 'G');
    crate::command::gain::lemma_try_from_absent(frag);
    crate::command::imaging_style::lemma_command_chars(v, 'W');
    crate::command::target_white_value::lemma_try_from_absent(frag);
    crate::command::imaging_style::lemma_command_chars(v, 'D');
    crate::command::delta_for_acceptance::lemma_try_from_absent(frag);
    crate::command::imaging_style::lemma_command_chars(v, 'U');
    crate::command::update_tries::lemma_try_from_absent(frag);
    crate::command::imaging_style::lemma_command_chars(v, '%');
    crate::command::target_set_point::lemma_try_from_absent(frag);
}

/// Decoding the prefix followed by one encoded [Beeper] populates exactly
/// that slot.
pub proof fn lemma_try_from_single_beeper(v: Beeper)
    ensures
        ImageSnap::spec_try_from("IMGSNP"@ + v.spec_command()) == Ok::<ImageSnap, Error>(
            ImageSnap {
                beeper: Some(v),
                ..ImageSnap::new_spec()
            },
        ),
{
    reveal_strlit("IMGSNP");
    let frag = v.spec_command();
    let s = "IMGSNP"@ + frag;
    reveal_strlit("0B");
    reveal_strlit("1B");
    assert(match_at(s, "IMGSNP"@, 0));
    assert(s.subrange("IMGSNP"@.len() as int, s.len() as int) =~= frag);
    crate::command::beeper::lemma_round_trip(v);
    crate::command::beeper::lemma_command_chars(v, 'P');
    crate::command::imaging_style::lemma_try_from_absent(frag);
    crate::command::beeper::lemma_command_chars(v, 'T');
    crate::command::wait_for_trigger::lemma_try_from_absent(frag);
    crate::command::beeper::lemma_command_chars(v, 'L');
    crate::command::led::lemma_try_from_absent(frag);
    crate::command::beeper::lemma_command_chars(v, 'E');
    crate::command::exposure::lemma_try_from_absent(frag);
    crate::command::beeper::lemma_command_chars(v, 'G');
    crate::command::gain::lemma_try_from_absent(frag);
    crate::command::beeper::lemma_command_chars(v, 'W');
    crate::command::target_white_value::lemma_try_from_absent(frag);
    crate::command::beeper::lemma_command_chars(v, 'D');
    crate::command::delta_for_acceptance::lemma_try_from_absent(frag);
    crate::command::beeper::lemma_command_chars(v, 'U');
    crate::command::update_tries::lemma_try_from_absent(frag);
    crate::command::beeper::lemma_command_chars(v, '%');
    crate::command::target_set_point::lemma_try_from_absent(frag);
}

/// Decoding the prefix followed by one encoded [WaitForTrigger] populates exactly
/// that slot.
pub proof fn lemma_try_from_single_wait_for_trigger(v: WaitForTrigger)
    ensures
        ImageSnap::spec_try_from("IMGSNP"@ + v.spec_command()) == Ok::<ImageSnap, Error>(
            ImageSnap {
                wait_for_trigger: Some(v),
                ..ImageSnap::new_spec()
            },
        ),
{
    reveal_strlit("IMGSNP");
    let frag = v.spec_command();
    let s = "IMGSNP"@ + frag;
    reveal_strlit("0T");
    reveal_strlit("1T");
    assert(match_at(s, "IMGSNP"@, 0));
    assert(s.subrange("IMGSNP"@.len() as int, s.len() as int) =~= frag);
    crate::command::wait_for_trigger::lemma_round_trip(v);
    crate::command::wait_for_trigger::lemma_command_chars(v, 'P');
    crate::command::imaging_style::lemma_try_from_absent(frag);
    crate::command::wait_for_trigger::lemma_command_chars(v, 'B');
    crate::command::beeper::lemma_try_from_absent(frag);
    crate::command::wait_for_trigger::lemma_command_chars(v, 'L');
    crate::command::led::lemma_try_from_absent(frag);
    crate::command::wait_for_trigger::lemma_command_chars(v, 'E');
    crate::command::exposure::lemma_try_from_absent(frag);
    crate::command::wait_for_trigger::lemma_command_chars(v, 'G');
    crate::command::gain::lemma_try_from_absent(frag);
    crate::command::wait_for_trigger::lemma_command_chars(v, 'W');
    crate::command::target_white_value::lemma_try_from_absent(frag);
    crate::command::wait_for_trigger::lemma_command_chars(v, 'D');
    crate::command::delta_for_acceptance::lemma_try_from_absent(frag);
    crate::command::wait_for_trigger::lemma_command_chars(v, 'U');
    crate::command::update_tries::lemma_try_from_absent(frag);
    crate::command::wait_for_trigger::lemma_command_chars(v, '%');
    crate::command::target_set_point::lemma_try_from_absent(frag);
}

/// Decoding the prefix followed by one encoded [LED] populates exactly
/// that slot.
pub proof fn lemma_try_from_single_led(v: LED)
    ensures
        ImageSnap::spec_try_from("IMGSNP"@ + v.spec_command()) == Ok::<ImageSnap, Error>(
            ImageSnap {
                led: Some(v),
                ..ImageSnap::new_spec()
            },
        ),
{
    reveal_strlit("IMGSNP");
    let frag = v.spec_command();
    let s = "IMGSNP"@ + frag;
    reveal_strlit("0L");
    reveal_strlit("1L");
    assert(match_at(s, "IMGSNP"@, 0));
    assert(s.subrange("IMGSNP"@.len() as int, s.len() as int) =~= frag);
    crate::command::led::lemma_round_trip(v);
    crate::command::led::lemma_command_chars(v, 'P');
    crate::command::imaging_style::lemma_try_from_absent(frag);
    crate::command::led::lemma_command_chars(v, 'B');
    crate::command::beeper::lemma_try_from_absent(frag);
    crate::command::led::lemma_command_chars(v, 'T');
    crate::command::wait_for_trigger::lemma_try_from_absent(frag);
    crate::command::led::lemma_command_chars(v, 'E');
    crate::command::exposure::lemma_try_from_absent(frag);
    crate::command::led::lemma_command_chars(v, 'G');
    crate::command::gain::lemma_try_from_absent(frag);
    crate::command::led::lemma_command_chars(v, 'W');
    crate::command::target_white_value::lemma_try_from_absent(frag);
    crate::command::led::lemma_command_chars(v, 'D');
    crate::command::delta_for_acceptance::lemma_try_from_absent(frag);
    crate::command::led::lemma_command_chars(v, 'U');
    crate::command::update_tries::lemma_try_from_absent(frag);
    crate::command::led::lemma_command_chars(v, '%');
    crate::command::target_set_point::lemma_try_from_absent(frag);
}

/// Decoding the prefix followed by one encoded [Exposure] populates exactly
/// that slot.
pub proof fn lemma_try_from_single_exposure(v: Exposure)
    requires
        v.wf(),
    ensures
        ImageSnap::spec_try_from("IMGSNP"@ + v.spec_command()) == Ok::<ImageSnap, Error>(
            ImageSnap {
                exposure: Some(v),
                ..ImageSnap::new_spec()
            },
        ),
{
    reveal_strlit("IMGSNP");
    let frag = v.spec_command();
    let s = "IMGSNP"@ + frag;
    lemma_rendered_chars(v.units as nat, 'E');
    assert(match_at(s, "IMGSNP"@, 0));
    assert(s.subrange("IMGSNP"@.len() as int, s.len() as int) =~= frag);
    crate::command::exposure::lemma_round_trip(v);
    assert(forall|i: int| 0 <= i < frag.len() ==> frag[i] != 'P');
    crate::command::imaging_style::lemma_try_from_absent(frag);
    assert(forall|i: int| 0 <= i < frag.len() ==> frag[i] != 'B');
    crate::command::beeper::lemma_try_from_absent(frag);
    assert(forall|i: int| 0 <= i < frag.len() ==> frag[i] != 'T');
    crate::command::wait_for_trigger::lemma_try_from_absent(frag);
    assert(forall|i: int| 0 <= i < frag.len() ==> frag[i] != 'L');
    crate::command::led::lemma_try_from_absent(frag);
    assert(forall|i: int| 0 <= i < frag.len() ==> frag[i] != 'G');
    crate::command::gain::lemma_try_from_absent(frag);
    assert(forall|i: int| 0 <= i < frag.len() ==> frag[i] != 'W');
    crate::command::target_white_value::lemma_try_from_absent(frag);
    assert(forall|i: int| 0 <= i < frag.len() ==> frag[i] != 'D');
    crate::command::delta_for_acceptance::lemma_try_from_absent(frag);
    assert(forall|i: int| 0 <= i < frag.len() ==> frag[i] != 'U');
    crate::command::update_tries::lemma_try_from_absent(frag);
    assert(forall|i: int| 0 <= i < frag.len() ==> frag[i] != '%');
    crate::command::target_set_point::lemma_try_from_absent(frag);
}

/// Decoding the prefix followed by one encoded [Gain] populates exactly
/// that slot.
pub proof fn lemma_try_from_single_gain(v: Gain)
    ensures
        ImageSnap::spec_try_from("IMGSNP"@ + v.spec_command()) == Ok::<ImageSnap, Error>(
            ImageSnap {
                gain: Some(v),
                ..ImageSnap::new_spec()
            },
        ),
{
    reveal_strlit("IMGSNP");
    let frag = v.spec_command();
    let s = "IMGSNP"@ + frag;
    reveal_strlit("1G");
    reveal_strlit("2G");
    reveal_strlit("4G");
    reveal_strlit("8G");
    assert(match_at(s, "IMGSNP"@, 0));
    assert(s.subrange("IMGSNP"@.len() as int, s.len() as int) =~= frag);
    crate::command::gain::lemma_round_trip(v);
    crate::command::gain::lemma_command_chars(v, 'P');
    crate::command::imaging_style::lemma_try_from_absent(frag);
    crate::command::gain::lemma_command_chars(v, 'B');
    crate::command::beeper::lemma_try_from_absent(frag);
    crate::command::gain::lemma_command_chars(v, 'T');
    crate::command::wait_for_trigger::lemma_try_from_absent(frag);
    crate::command::gain::lemma_command_chars(v, 'L');
    crate::command::led::lemma_try_from_absent(frag);
    crate::command::gain::lemma_command_chars(v, 'E');
    crate::command::exposure::lemma_try_from_absent(frag);
    crate::command::gain::lemma_command_chars(v, 'W');
    crate::command::target_white_value::lemma_try_from_absent(frag);
    crate::command::gain::lemma_command_chars(v, 'D');
    crate::command::delta_for_acceptance::lemma_try_from_absent(frag);
    crate::command::gain::lemma_command_chars(v, 'U');
    crate::command::update_tries::lemma_try_from_absent(frag);
    crate::command::gain::lemma_command_chars(v, '%');
    crate::command::target_set_point::lemma_try_from_absent(frag);
}

/// Decoding the prefix followed by one encoded [TargetWhiteValue] populates exactly
/// that slot.
pub proof fn lemma_try_from_single_target_white_value(v: TargetWhiteValue)
    ensures
        ImageSnap::spec_try_from("IMGSNP"@ + v.spec_command()) == Ok::<ImageSnap, Error>(
            ImageSnap {
                target_white_value: Some(v),
                ..ImageSnap::new_spec()
            },
        ),
{
    reveal_strlit("IMGSNP");
    let frag = v.spec_command();
    let s = "IMGSNP"@ + frag;
    lemma_rendered_chars(v.value as nat, 'W');
    assert(match_at(s, "IMGSNP"@, 0));
    assert(s.subrange("IMGSNP"@.len() as int, s.len() as int) =~= frag);
    crate::command::target_white_value::lemma_round_trip(v);
    assert(forall|i: int| 0 <= i < frag.len() ==> frag[i] != 'P');
    crate::command::imaging_style::lemma_try_from_absent(frag);
    assert(forall|i: int| 0 <= i < frag.len() ==> frag[i] != 'B');
    crate::command::beeper::lemma_try_from_absent(frag);
    assert(forall|i: int| 0 <= i < frag.len() ==> frag[i] != 'T');
    crate::command::wait_for_trigger::lemma_try_from_absent(frag);
    assert(forall|i: int| 0 <= i < frag.len() ==> frag[i] != 'L');
    crate::command::led::lemma_try_from_absent(frag);
    assert(forall|i: int| 0 <= i < frag.len() ==> frag[i] != 'E');
    crate::command::exposure::lemma_try_from_absent(frag);
    assert(forall|i: int| 0 <= i < frag.len() ==> frag[i] != 'G');
    crate::command::gain::lemma_try_from_absent(frag);
    assert(forall|i: int| 0 <= i < frag.len() ==> frag[i] != 'D');
    crate::command::delta_for_acceptance::lemma_try_from_absent(frag);
    assert(forall|i: int| 0 <= i < frag.len() ==> frag[i] != 'U');
    crate::command::update_tries::lemma_try_from_absent(frag);
    assert(forall|i: int| 0 <= i < frag.len() ==> frag[i] != '%');
    crate::command::target_set_point::lemma_try_from_absent(frag);
}

/// Decoding the prefix followed by one encoded [DeltaForAcceptance] populates exactly
/// that slot.
pub proof fn lemma_try_from_single_delta_for_acceptance(v: DeltaForAcceptance)
    ensures
        ImageSnap::spec_try_from("IMGSNP"@ + v.spec_command()) == Ok::<ImageSnap, Error>(
            ImageSnap {
                delta_for_acceptance: Some(v),
                ..ImageSnap::new_spec()
            },
        ),
{
    reveal_strlit("IMGSNP");
    let frag = v.spec_command();
    let s = "IMGSNP"@ + frag;
    lemma_rendered_chars(v.delta as nat, 'D');
    assert(match_at(s, "IMGSNP"@, 0));
    assert(s.subrange("IMGSNP"@.len() as int, s.len() as int) =~= frag);
    crate::command::delta_for_acceptance::lemma_round_trip(v);
    assert(forall|i: int| 0 <= i < frag.len() ==> frag[i] != 'P');
    crate::command::imaging_style::lemma_try_from_absent(frag);
    assert(forall|i: int| 0 <= i < frag.len() ==> frag[i] != 'B');
    crate::command::beeper::lemma_try_from_absent(frag);
    assert(forall|i: int| 0 <= i < frag.len() ==> frag[i] != 'T');
    crate::command::wait_for_trigger::lemma_try_from_absent(frag);
    assert(forall|i: int| 0 <= i < frag.len() ==> frag[i] != 'L');
    crate::command::led::lemma_try_from_absent(frag);
    assert(forall|i: int| 0 <= i < frag.len() ==> frag[i] != 'E');
    crate::command::exposure::lemma_try_from_absent(frag);
    assert(forall|i: int| 0 <= i < frag.len() ==> frag[i] != 'G');
    crate::command::gain::lemma_try_from_absent(frag);
    assert(forall|i: int| 0 <= i < frag.len() ==> frag[i] != 'W');
    crate::command::target_white_value::lemma_try_from_absent(frag);
    assert(forall|i: int| 0 <= i < frag.len() ==> frag[i] != 'U');
    crate::command::update_tries::lemma_try_from_absent(frag);
    assert(forall|i: int| 0 <= i < frag.len() ==> frag[i] != '%');
    crate::command::target_set_point::lemma_try_from_absent(frag);
}

/// Decoding the prefix followed by one encoded [UpdateTries] populates exactly
/// that slot.
pub proof fn lemma_try_from_single_update_tries(v: UpdateTries)
    requires
        v.wf(),
    ensures
        ImageSnap::spec_try_from("IMGSNP"@ + v.spec_command()) == Ok::<ImageSnap, Error>(
            ImageSnap {
                update_tries: Some(v),
                ..ImageSnap::new_spec()
            },
        ),
{
    reveal_strlit("IMGSNP");
    let frag = v.spec_command();
    let s = "IMGSNP"@ + frag;
    lemma_rendered_chars(v.tries as nat, 'U');
    assert(match_at(s, "IMGSNP"@, 0));
    assert(s.subrange("IMGSNP"@.len() as int, s.len() as int) =~= frag);
    crate::command::update_tries::lemma_round_trip(v);
    assert(forall|i: int| 0 <= i < frag.len() ==> frag[i] != 'P');
    crate::command::imaging_style::lemma_try_from_absent(frag);
    assert(forall|i: int| 0 <= i < frag.len() ==> frag[i] != 'B');
    crate::command::beeper::lemma_try_from_absent(frag);
    assert(forall|i: int| 0 <= i < frag.len() ==> frag[i] != 'T');
    crate::command::wait_for_trigger::lemma_try_from_absent(frag);
    assert(forall|i: int| 0 <= i < frag.len() ==> frag[i] != 'L');
    crate::command::led::lemma_try_from_absent(frag);
    assert(forall|i: int| 0 <= i < frag.len() ==> frag[i] != 'E');
    crate::command::exposure::lemma_try_from_absent(frag);
    assert(forall|i: int| 0 <= i < frag.len() ==> frag[i] != 'G');
    crate::command::gain::lemma_try_from_absent(frag);
    assert(forall|i: int| 0 <= i < frag.len() ==> frag[i] != 'W');
    crate::command::target_white_value::lemma_try_from_absent(frag);
    assert(forall|i: int| 0 <= i < frag.len() ==> frag[i] != 'D');
    crate::command::delta_for_acceptance::lemma_try_from_absent(frag);
    assert(forall|i: int| 0 <= i < frag.len() ==> frag[i] != '%');
    crate::command::target_set_point::lemma_try_from_absent(frag);
}

/// Decoding the prefix followed by one encoded [TargetSetPoint] populates exactly
/// that slot.
pub proof fn lemma_try_from_single_target_set_point(v: TargetSetPoint)
    requires
        v.wf(),
    ensures
        ImageSnap::spec_try_from("IMGSNP"@ + v.spec_command()) == Ok::<ImageSnap, Error>(
            ImageSnap {
                target_set_point: Some(v),
                ..ImageSnap::new_spec()
            },
        ),
{
    reveal_strlit("IMGSNP");
    let frag = v.spec_command();
    let s = "IMGSNP"@ + frag;
    lemma_rendered_chars(v.percentage as nat, '%');
    assert(match_at(s, "IMGSNP"@, 0));
    assert(s.subrange("IMGSNP"@.len() as int, s.len() as int) =~= frag);
    crate::command::target_set_point::lemma_round_trip(v);
    assert(forall|i: int| 0 <= i < frag.len() ==> frag[i] != 'P');
    crate::command::imaging_style::lemma_try_from_absent(frag);
    assert(forall|i: int| 0 <= i < frag.len() ==> frag[i] != 'B');
    crate::command::beeper::lemma_try_from_absent(frag);
    assert(forall|i: int| 0 <= i < frag.len() ==> frag[i] != 'T');
    crate::command::wait_for_trigger::lemma_try_from_absent(frag);
    assert(forall|i: int| 0 <= i < frag.len() ==> frag[i] != 'L');
    crate::command::led::lemma_try_from_absent(frag);
    assert(forall|i: int| 0 <= i < frag.len() ==> frag[i] != 'E');
    crate::command::exposure::lemma_try_from_absent(frag);
    assert(forall|i: int| 0 <= i < frag.len() ==> frag[i] != 'G');
    crate::command::gain::lemma_try_from_absent(frag);
    assert(forall|i: int| 0 <= i < frag.len() ==> frag[i] != 'W');
    crate::command::target_white_value::lemma_try_from_absent(frag);
    assert(forall|i: int| 0 <= i < frag.len() ==> frag[i] != 'D');
    crate::command::delta_for_acceptance::lemma_try_from_absent(frag);
    assert(forall|i: int| 0 <= i < frag.len() ==> frag[i] != 'U');
    crate::command::update_tries::lemma_try_from_absent(frag);
}

} // verus!
