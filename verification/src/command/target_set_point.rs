//! The image snap target set point field.

use vstd::prelude::*;

use crate::result::Error;
use crate::text::dec_digits;
use crate::text::lemma_find_char_absent;
use crate::text::lemma_parse_bounded_of_rendered;
use crate::text::parse_bounded;
use crate::text::render_u32;
use crate::text::scan_u32;
use crate::text::DelimiterKind;

verus! {

/// Represents the image snap target set point percentage.
#[derive(Clone, Copy, Debug, Eq, PartialEq)]
pub struct TargetSetPoint {
    /// The percentage, valid in `1..=99`.
    pub percentage: u8,
}

impl TargetSetPoint {
    /// The percentage lies in the valid range `1..=99`.
    pub open spec fn wf(self) -> bool {
        1 <= self.percentage <= 99
    }

    /// The ASCII fragment: the decimal percentage followed by `%`.
    pub open spec fn spec_command(self) -> Seq<char> {
        dec_digits(self.percentage as nat) + seq!['%']
    }

    /// String decoding: the digits before the first `%` (back to the
    /// nearest delimiter) parsed and range-checked.  Any failure reports
    /// `InvalidVariant`.
    pub open spec fn spec_parse(s: Seq<char>) -> Result<TargetSetPoint, Error> {
        match parse_bounded(s, '%', DelimiterKind::Uppercase, 1, 99) {
            Some(n) => Ok(TargetSetPoint { percentage: n as u8 }),
            None => Err(Error::InvalidVariant),
        }
    }

    /// Creates a new [TargetSetPoint] with the default percentage.
    pub fn new() -> (r: Self)
        ensures
            r == (TargetSetPoint { percentage: 50 }),
            r.wf(),
    {
        Self { percentage: 50 }
    }

    /// Gets the [TargetSetPoint] percentage setting.
    pub fn percentage(&self) -> (r: u8)
        ensures
            r == self.percentage,
    {
        self.percentage
    }

    /// Creates a [TargetSetPoint] from a percentage parameter: succeeds
    /// exactly on `1..=99`, and rejects any other value as `InvalidValue`
    /// carrying the offending percentage.
    pub fn try_from_percentage(percentage: u8) -> (r: Result<Self, Error>)
        ensures
            r == if 1 <= percentage && percentage <= 99 {
                Ok::<TargetSetPoint, Error>(TargetSetPoint { percentage })
            } else {
                Err::<TargetSetPoint, Error>(Error::InvalidValue(percentage as usize))
            },
            r is Ok ==> r->Ok_0.wf(),
    {
        if 1 <= percentage && percentage <= 99 {
            Ok(Self { percentage })
        } else {
            Err(Error::InvalidValue(percentage as usize))
        }
    }

    /// Gets the ASCII serial command code for [TargetSetPoint].
    pub fn command(&self) -> (r: String)
        ensures
            r@ == self.spec_command(),
    {
        let mut out = render_u32(self.percentage as u32);
        out.append("%");
        proof {
            reveal_strlit("%");
            assert(out@ =~= self.spec_command());
        }
        out
    }

    /// Decodes a [TargetSetPoint] from a fragment.
    pub fn try_from(val: &str) -> (r: Result<Self, Error>)
        ensures
            r == TargetSetPoint::spec_parse(val@),
    {
        match scan_u32(val, '%', DelimiterKind::Uppercase, 99) {
            Some(n) => if n >= 1 {
                Ok(Self { percentage: n as u8 })
            } else {
                Err(Error::InvalidVariant)
            },
            None => Err(Error::InvalidVariant),
        }
    }
}

impl Default for TargetSetPoint {
    fn default() -> (r: Self)
        ensures
            r == (TargetSetPoint { percentage: 50 }),
    {
        Self::new()
    }
}

/// Round trip: decoding the encoding of a valid value yields that value.
pub proof fn lemma_round_trip(v: TargetSetPoint)
    requires
        v.wf(),
    ensures
        TargetSetPoint::spec_parse(v.spec_command()) == Ok::<TargetSetPoint, Error>(v),
{
    lemma_parse_bounded_of_rendered(v.percentage as nat, '%', DelimiterKind::Uppercase, 1, 99);
}

/// A fragment without the character `%` decodes to no value of this field.
pub proof fn lemma_try_from_absent(s: Seq<char>)
    requires
        forall|i: int| 0 <= i < s.len() ==> s[i] != '%',
    ensures
        TargetSetPoint::spec_parse(s) == Err::<TargetSetPoint, Error>(Error::InvalidVariant),
{
    lemma_find_char_absent(s, '%');
}

} // verus!
