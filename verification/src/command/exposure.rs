//! The image snap exposure field.

use vstd::prelude::*;

use crate::result::Error;
use crate::text::dec_digits;
use crate::text::lemma_find_char_absent;
use crate::text::lemma_parse_bounded_of_rendered;
use crate::text::parse_bounded;
use crate::text::render_u32;
use crate::text::scan_u32;
use crate::text::DelimiterKind;

verus! {

/// Represents the image snap exposure settings, in units of 127 microseconds.
#[derive(Clone, Copy, Debug, Eq, PartialEq)]
pub struct Exposure {
    /// The exposure in device units, valid in `1..=10_000_000`.
    pub units: u32,
}

impl Exposure {
    /// The unit count lies in the valid range `1..=10_000_000`.
    pub open spec fn wf(self) -> bool {
        1 <= self.units <= 10_000_000
    }

    /// The ASCII fragment: the decimal unit count followed by `E`.
    pub open spec fn spec_command(self) -> Seq<char> {
        dec_digits(self.units as nat) + seq!['E']
    }

    /// String decoding: the digits before the first `E` (back to the nearest
    /// delimiter) parsed and range-checked.  Any failure reports
    /// `InvalidVariant`.
    pub open spec fn spec_parse(s: Seq<char>) -> Result<Exposure, Error> {
        match parse_bounded(s, 'E', DelimiterKind::UppercaseOrPercent, 1, 10_000_000) {
            Some(n) => Ok(Exposure { units: n as u32 }),
            None => Err(Error::InvalidVariant),
        }
    }

    /// Creates a new [Exposure] with the first-generation maximum.
    pub fn new() -> (r: Self)
        ensures
            r == (Exposure { units: 7874 }),
            r.wf(),
    {
        Self { units: 7874 }
    }

    /// Creates a new [Exposure] with the second-generation maximum.
    pub fn new_gen7() -> (r: Self)
        ensures
            r == (Exposure { units: 10_000_000 }),
            r.wf(),
    {
        Self { units: 10_000_000 }
    }

    /// Gets the number of 127-microsecond units for the [Exposure].
    pub fn units(&self) -> (r: u32)
        ensures
            r == self.units,
    {
        self.units
    }

    /// Gets the number of milliseconds for the [Exposure].
    pub fn ms(&self) -> (r: u32)
        requires
            self.wf(),
        ensures
            r == self.units * 127,
    {
        self.units * 127
    }

    /// Gets the maximum number of milliseconds for a first-generation
    /// [Exposure].
    pub fn max_ms_gen6() -> (r: u32)
        ensures
            r == 7874 * 127,
    {
        7874 * 127
    }

    /// Gets the maximum number of milliseconds for a second-generation
    /// [Exposure].
    pub fn max_ms_gen7() -> (r: u32)
        ensures
            r == 10_000_000 * 127,
    {
        10_000_000 * 127
    }

    /// Attempts to create an [Exposure] from a milliseconds parameter:
    /// succeeds exactly on `127..=1_270_000_000`, dividing down to units, and
    /// rejects any other value as `InvalidVariant`.
    pub fn try_from_ms(ms: u32) -> (r: Result<Self, Error>)
        ensures
            r == if 127 <= ms && ms <= 1_270_000_000 {
                Ok::<Exposure, Error>(Exposure { units: (ms / 127) as u32 })
            } else {
                Err::<Exposure, Error>(Error::InvalidVariant)
            },
            r is Ok ==> r->Ok_0.wf(),
    {
        if 127 <= ms && ms <= 1_270_000_000 {
            Ok(Self { units: ms / 127 })
        } else {
            Err(Error::InvalidVariant)
        }
    }

    /// Attempts to create an [Exposure] from a units parameter: succeeds
    /// exactly on `1..=10_000_000`, and rejects any other value as
    /// `InvalidVariant`.
    pub fn try_from_unit(units: u32) -> (r: Result<Self, Error>)
        ensures
            r == if 1 <= units && units <= 10_000_000 {
                Ok::<Exposure, Error>(Exposure { units })
            } else {
                Err::<Exposure, Error>(Error::InvalidVariant)
            },
            r is Ok ==> r->Ok_0.wf(),
    {
        if 1 <= units && units <= 10_000_000 {
            Ok(Self { units })
        } else {
            Err(Error::InvalidVariant)
        }
    }

    /// Gets the ASCII serial command code for [Exposure].
    pub fn command(&self) -> (r: String)
        ensures
            r@ == self.spec_command(),
    {
        let mut out = render_u32(self.units);
        out.append("E");
        proof {
            reveal_strlit("E");
            assert(out@ =~= self.spec_command());
        }
        out
    }

    /// Decodes an [Exposure] from a fragment.
    pub fn try_from(val: &str) -> (r: Result<Self, Error>)
        ensures
            r == Exposure::spec_parse(val@),
    {
        match scan_u32(val, 'E', DelimiterKind::UppercaseOrPercent, 10_000_000) {
            Some(n) => if n >= 1 {
                Ok(Self { units: n })
            } else {
                Err(Error::InvalidVariant)
            },
            None => Err(Error::InvalidVariant),
        }
    }
}

impl Default for Exposure {
    fn default() -> (r: Self)
        ensures
            r == (Exposure { units: 7874 }),
    {
        Self::new()
    }
}

/// Round trip: decoding the encoding of a valid value yields that value.
pub proof fn lemma_round_trip(v: Exposure)
    requires
        v.wf(),
    ensures
        Exposure::spec_parse(v.spec_command()) == Ok::<Exposure, Error>(v),
{
    lemma_parse_bounded_of_rendered(
        v.units as nat,
        'E',
        DelimiterKind::UppercaseOrPercent,
        1,
        10_000_000,
    );
}

/// A fragment without the letter `E` decodes to no exposure.
pub proof fn lemma_try_from_absent(s: Seq<char>)
    requires
        forall|i: int| 0 <= i < s.len() ==> s[i] != 'E',
    ensures
        Exposure::spec_parse(s) == Err::<Exposure, Error>(Error::InvalidVariant),
{
    lemma_find_char_absent(s, 'E');
}

} // verus!
