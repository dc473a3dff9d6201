//! The image ship gamma correction field.

use vstd::prelude::*;

use crate::result::Error;
use crate::text::dec_digits;
use crate::text::lemma_find_char_absent;
use crate::text::lemma_parse_bounded_of_rendered;
use crate::text::parse_bounded;
use crate::text::render_u32;
use crate::text::scan_u32;
use crate::text::DelimiterKind;

verus! {

/// Represents the image ship gamma correction.
#[derive(Clone, Copy, Debug, Eq, PartialEq)]
pub struct GammaCorrection {
    /// The gamma correction factor, valid in `0..=1000`.
    pub factor: u16,
}

impl GammaCorrection {
    /// The factor lies in the valid range `0..=1000`.
    pub open spec fn wf(self) -> bool {
        self.factor <= 1000
    }

    /// The ASCII fragment: the decimal factor followed by `K`.
    pub open spec fn spec_command(self) -> Seq<char> {
        dec_digits(self.factor as nat) + seq!['K']
    }

    /// String decoding: the digits before the first `K` (back to the
    /// nearest delimiter) parsed and range-checked.  Any failure reports
    /// `InvalidVariant`.
    pub open spec fn spec_parse(s: Seq<char>) -> Result<GammaCorrection, Error> {
        match parse_bounded(s, 'K', DelimiterKind::Letter, 0, 1000) {
            Some(n) => Ok(GammaCorrection { factor: n as u16 }),
            None => Err(Error::InvalidVariant),
        }
    }

    /// Creates a new [GammaCorrection] with the default factor.
    pub fn new() -> (r: Self)
        ensures
            r == (GammaCorrection { factor: 0 }),
            r.wf(),
    {
        Self { factor: 0 }
    }

    /// Gets the [GammaCorrection] factor setting.
    pub fn factor(&self) -> (r: u16)
        ensures
            r == self.factor,
    {
        self.factor
    }

    /// Creates a [GammaCorrection] from a factor parameter: succeeds
    /// exactly on `0..=1000`, and rejects any other value as `InvalidValue`.
    pub fn try_from_factor(factor: u16) -> (r: Result<Self, Error>)
        ensures
            r == if factor <= 1000 {
                Ok::<GammaCorrection, Error>(GammaCorrection { factor })
            } else {
                Err::<GammaCorrection, Error>(Error::InvalidValue(factor as usize))
            },
            r is Ok ==> r->Ok_0.wf(),
    {
        if factor <= 1000 {
            Ok(Self { factor })
        } else {
            Err(Error::InvalidValue(factor as usize))
        }
    }

    /// Converts a factor value, as [GammaCorrection::try_from_factor].
    pub fn try_from(val: u16) -> (r: Result<Self, Error>)
        ensures
            r == if val <= 1000 {
                Ok::<GammaCorrection, Error>(GammaCorrection { factor: val })
            } else {
                Err::<GammaCorrection, Error>(Error::InvalidValue(val as usize))
            },
    {
        Self::try_from_factor(val)
    }

    /// Gets the ASCII serial command code for [GammaCorrection].
    pub fn command(&self) -> (r: String)
        ensures
            r@ == self.spec_command(),
    {
        let mut out = render_u32(self.factor as u32);
        out.append("K");
        proof {
            reveal_strlit("K");
            assert(out@ =~= self.spec_command());
        }
        out
    }

    /// Decodes a [GammaCorrection] from a fragment.
    pub fn parse(val: &str) -> (r: Result<Self, Error>)
        ensures
            r == GammaCorrection::spec_parse(val@),
    {
        match scan_u32(val, 'K', DelimiterKind::Letter, 1000) {
            Some(n) => Ok(Self { factor: n as u16 }),
            None => Err(Error::InvalidVariant),
        }
    }
}

impl Default for GammaCorrection {
    fn default() -> (r: Self)
        ensures
            r == (GammaCorrection { factor: 0 }),
    {
        Self::new()
    }
}

/// Round trip: decoding the encoding of a valid value yields that value.
pub proof fn lemma_round_trip(v: GammaCorrection)
    requires
        v.wf(),
    ensures
        GammaCorrection::spec_parse(v.spec_command()) == Ok::<GammaCorrection, Error>(v),
{
    lemma_parse_bounded_of_rendered(v.factor as nat, 'K', DelimiterKind::Letter, 0, 1000);
}

/// A fragment without the letter `K` decodes to no value of this field.
pub proof fn lemma_parse_absent(s: Seq<char>)
    requires
        forall|i: int| 0 <= i < s.len() ==> s[i] != 'K',
    ensures
        GammaCorrection::spec_parse(s) == Err::<GammaCorrection, Error>(Error::InvalidVariant),
{
    lemma_find_char_absent(s, 'K');
}

} // verus!
