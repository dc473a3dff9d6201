//! The image snap delta for acceptance field.

use vstd::prelude::*;

use crate::result::Error;
use crate::text::dec_digits;
use crate::text::lemma_find_char_absent;
use crate::text::lemma_parse_bounded_of_rendered;
use crate::text::parse_bounded;
use crate::text::render_u32;
use crate::text::scan_u32;
use crate::text::DelimiterKind;

verus! {

/// Represents the image snap delta for acceptance.
#[derive(Clone, Copy, Debug, Eq, PartialEq)]
pub struct DeltaForAcceptance {
    /// The delta; every byte value is valid.
    pub delta: u8,
}

impl DeltaForAcceptance {
    /// The ASCII fragment: the decimal delta followed by `D`.
    pub open spec fn spec_command(self) -> Seq<char> {
        dec_digits(self.delta as nat) + seq!['D']
    }

    /// String decoding: the digits before the first `D` (back to the
    /// nearest delimiter) parsed and range-checked.  Any failure reports
    /// `InvalidVariant`.
    pub open spec fn spec_parse(s: Seq<char>) -> Result<DeltaForAcceptance, Error> {
        match parse_bounded(s, 'D', DelimiterKind::UppercaseOrPercent, 0, 255) {
            Some(n) => Ok(DeltaForAcceptance { delta: n as u8 }),
            None => Err(Error::InvalidVariant),
        }
    }

    /// Creates a new [DeltaForAcceptance] with the default delta.
    pub fn new() -> (r: Self)
        ensures
            r == (DeltaForAcceptance { delta: 25 }),
    {
        Self { delta: 25 }
    }

    /// Creates a new [DeltaForAcceptance] with the second-generation default delta.
    pub fn new_gen7() -> (r: Self)
        ensures
            r == (DeltaForAcceptance { delta: 30 }),
    {
        Self { delta: 30 }
    }

    /// Gets the [DeltaForAcceptance] delta setting.
    pub fn delta(&self) -> (r: u8)
        ensures
            r == self.delta,
    {
        self.delta
    }

    /// Creates a [DeltaForAcceptance] from a delta parameter.
    pub fn from_delta(delta: u8) -> (r: Self)
        ensures
            r == (DeltaForAcceptance { delta }),
    {
        Self { delta }
    }

    /// Gets the ASCII serial command code for [DeltaForAcceptance].
    pub fn command(&self) -> (r: String)
        ensures
            r@ == self.spec_command(),
    {
        let mut out = render_u32(self.delta as u32);
        out.append("D");
        proof {
            reveal_strlit("D");
            assert(out@ =~= self.spec_command());
        }
        out
    }

    /// Decodes a [DeltaForAcceptance] from a fragment.
    pub fn try_from(val: &str) -> (r: Result<Self, Error>)
        ensures
            r == DeltaForAcceptance::spec_parse(val@),
    {
        match scan_u32(val, 'D', DelimiterKind::UppercaseOrPercent, 255) {
            Some(n) => Ok(Self { delta: n as u8 }),
            None => Err(Error::InvalidVariant),
        }
    }
}

impl Default for DeltaForAcceptance {
    fn default() -> (r: Self)
        ensures
            r == (DeltaForAcceptance { delta: 25 }),
    {
        Self::new()
    }
}

impl From<u8> for DeltaForAcceptance {
    fn from(val: u8) -> (r: Self) {
        Self::from_delta(val)
    }
}

impl vstd::std_specs::convert::FromSpecImpl<u8> for DeltaForAcceptance {
    open spec fn obeys_from_spec() -> bool {
        true
    }

    open spec fn from_spec(v: u8) -> Self {
        DeltaForAcceptance { delta: v }
    }
}

/// Round trip: decoding the encoding of a valid value yields that value.
pub proof fn lemma_round_trip(v: DeltaForAcceptance)
    ensures
        DeltaForAcceptance::spec_parse(v.spec_command()) == Ok::<DeltaForAcceptance, Error>(v),
{
    lemma_parse_bounded_of_rendered(v.delta as nat, 'D', DelimiterKind::UppercaseOrPercent, 0, 255);
}

/// A fragment without the letter `D` decodes to no value of this field.
pub proof fn lemma_try_from_absent(s: Seq<char>)
    requires
        forall|i: int| 0 <= i < s.len() ==> s[i] != 'D',
    ensures
        DeltaForAcceptance::spec_parse(s) == Err::<DeltaForAcceptance, Error>(Error::InvalidVariant),
{
    lemma_find_char_absent(s, 'D');
}

} // verus!
