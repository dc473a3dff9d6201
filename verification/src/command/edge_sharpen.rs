//! The image ship edge sharpen field.

use vstd::prelude::*;

use crate::result::Error;
use crate::text::dec_digits;
use crate::text::lemma_find_char_absent;
use crate::text::lemma_parse_bounded_of_rendered;
use crate::text::parse_bounded;
use crate::text::render_u32;
use crate::text::scan_u32;
use crate::text::DelimiterKind;

verus! {

/// Represents the image ship edge sharpen.
#[derive(Clone, Copy, Debug, Eq, PartialEq)]
pub struct EdgeSharpen {
    /// The sharpening strength, valid in `0..=24`.
    pub strength: u8,
}

impl EdgeSharpen {
    /// The strength lies in the valid range `0..=24`.
    pub open spec fn wf(self) -> bool {
        self.strength <= 24
    }

    /// The ASCII fragment: the decimal strength followed by `E`.
    pub open spec fn spec_command(self) -> Seq<char> {
        dec_digits(self.strength as nat) + seq!['E']
    }

    /// String decoding: the digits before the first `E` (back to the nearest
    /// ASCII letter) parsed and range-checked.  Any failure, the range check
    /// included, reports `InvalidVariant`: `InvalidValue` comes only from the
    /// direct constructor path.
    pub open spec fn spec_parse(s: Seq<char>) -> Result<EdgeSharpen, Error> {
        match parse_bounded(s, 'E', DelimiterKind::Letter, 0, 24) {
            Some(n) => Ok(EdgeSharpen { strength: n as u8 }),
            None => Err(Error::InvalidVariant),
        }
    }

    /// Creates a new [EdgeSharpen] with the default strength.
    pub fn new() -> (r: Self)
        ensures
            r == (EdgeSharpen { strength: 0 }),
            r.wf(),
    {
        Self { strength: 0 }
    }

    /// Gets the [EdgeSharpen] strength setting.
    pub fn strength(&self) -> (r: u8)
        ensures
            r == self.strength,
    {
        self.strength
    }

    /// Creates an [EdgeSharpen] from a strength parameter: succeeds exactly
    /// on `0..=24`, and rejects any other value as `InvalidValue`.
    pub fn try_from_strength(strength: u8) -> (r: Result<Self, Error>)
        ensures
            r == if strength <= 24 {
                Ok::<EdgeSharpen, Error>(EdgeSharpen { strength })
            } else {
                Err::<EdgeSharpen, Error>(Error::InvalidValue(strength as usize))
            },
            r is Ok ==> r->Ok_0.wf(),
    {
        if strength <= 24 {
            Ok(Self { strength })
        } else {
            Err(Error::InvalidValue(strength as usize))
        }
    }

    /// Converts a strength value, as [EdgeSharpen::try_from_strength].
    pub fn try_from(val: u8) -> (r: Result<Self, Error>)
        ensures
            r == if val <= 24 {
                Ok::<EdgeSharpen, Error>(EdgeSharpen { strength: val })
            } else {
                Err::<EdgeSharpen, Error>(Error::InvalidValue(val as usize))
            },
    {
        Self::try_from_strength(val)
    }

    /// Gets the ASCII serial command code for [EdgeSharpen].
    pub fn command(&self) -> (r: String)
        ensures
            r@ == self.spec_command(),
    {
        let mut out = render_u32(self.strength as u32);
        out.append("E");
        proof {
            reveal_strlit("E");
            assert(out@ =~= self.spec_command());
        }
        out
    }

    /// Decodes an [EdgeSharpen] from a fragment.
    pub fn parse(val: &str) -> (r: Result<Self, Error>)
        ensures
            r == EdgeSharpen::spec_parse(val@),
    {
        match scan_u32(val, 'E', DelimiterKind::Letter, 24) {
            Some(n) => Ok(Self { strength: n as u8 }),
            None => Err(Error::InvalidVariant),
        }
    }
}

impl Default for EdgeSharpen {
    fn default() -> (r: Self)
        ensures
            r == (EdgeSharpen { strength: 0 }),
    {
        Self::new()
    }
}

/// Round trip: decoding the encoding of a valid value yields that value.
pub proof fn lemma_round_trip(v: EdgeSharpen)
    requires
        v.wf(),
    ensures
        EdgeSharpen::spec_parse(v.spec_command()) == Ok::<EdgeSharpen, Error>(v),
{
    lemma_parse_bounded_of_rendered(
        v.strength as nat,
        'E',
        DelimiterKind::Letter,
        0,
        24,
    );
}

/// A fragment without the letter `E` decodes to no edge sharpen.
pub proof fn lemma_parse_absent(s: Seq<char>)
    requires
        forall|i: int| 0 <= i < s.len() ==> s[i] != 'E',
    ensures
        EdgeSharpen::spec_parse(s) == Err::<EdgeSharpen, Error>(Error::InvalidVariant),
{
    lemma_find_char_absent(s, 'E');
}

} // verus!
