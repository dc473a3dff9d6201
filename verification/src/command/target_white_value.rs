//! The image snap target white value field.

use vstd::prelude::*;

use crate::result::Error;
use crate::text::dec_digits;
use crate::text::lemma_find_char_absent;
use crate::text::lemma_parse_bounded_of_rendered;
use crate::text::parse_bounded;
use crate::text::render_u32;
use crate::text::scan_u32;
use crate::text::DelimiterKind;

verus! {

/// Represents the image snap target white value.
#[derive(Clone, Copy, Debug, Eq, PartialEq)]
pub struct TargetWhiteValue {
    /// The target white value; every byte value is valid.
    pub value: u8,
}

impl TargetWhiteValue {
    /// The ASCII fragment: the decimal value followed by `W`.
    pub open spec fn spec_command(self) -> Seq<char> {
        dec_digits(self.value as nat) + seq!['W']
    }

    /// String decoding: the digits before the first `W` (back to the
    /// nearest delimiter) parsed and range-checked.  Any failure reports
    /// `InvalidVariant`.
    pub open spec fn spec_parse(s: Seq<char>) -> Result<TargetWhiteValue, Error> {
        match parse_bounded(s, 'W', DelimiterKind::UppercaseOrPercent, 0, 255) {
            Some(n) => Ok(TargetWhiteValue { value: n as u8 }),
            None => Err(Error::InvalidVariant),
        }
    }

    /// Creates a new [TargetWhiteValue] with the default value.
    pub fn new() -> (r: Self)
        ensures
            r == (TargetWhiteValue { value: 125 }),
    {
        Self { value: 125 }
    }

    /// Gets the [TargetWhiteValue] value setting.
    pub fn value(&self) -> (r: u8)
        ensures
            r == self.value,
    {
        self.value
    }

    /// Creates a [TargetWhiteValue] from a value parameter.
    pub fn from_value(value: u8) -> (r: Self)
        ensures
            r == (TargetWhiteValue { value }),
    {
        Self { value }
    }

    /// Gets the ASCII serial command code for [TargetWhiteValue].
    pub fn command(&self) -> (r: String)
        ensures
            r@ == self.spec_command(),
    {
        let mut out = render_u32(self.value as u32);
        out.append("W");
        proof {
            reveal_strlit("W");
            assert(out@ =~= self.spec_command());
        }
        out
    }

    /// Decodes a [TargetWhiteValue] from a fragment.
    pub fn try_from(val: &str) -> (r: Result<Self, Error>)
        ensures
            r == TargetWhiteValue::spec_parse(val@),
    {
        match scan_u32(val, 'W', DelimiterKind::UppercaseOrPercent, 255) {
            Some(n) => Ok(Self { value: n as u8 }),
            None => Err(Error::InvalidVariant),
        }
    }
}

impl Default for TargetWhiteValue {
    fn default() -> (r: Self)
        ensures
            r == (TargetWhiteValue { value: 125 }),
    {
        Self::new()
    }
}

impl From<u8> for TargetWhiteValue {
    fn from(val: u8) -> (r: Self) {
        Self::from_value(val)
    }
}

impl vstd::std_specs::convert::FromSpecImpl<u8> for TargetWhiteValue {
    open spec fn obeys_from_spec() -> bool {
        true
    }

    open spec fn from_spec(v: u8) -> Self {
        TargetWhiteValue { value: v }
    }
}

/// Round trip: decoding the encoding of a valid value yields that value.
pub proof fn lemma_round_trip(v: TargetWhiteValue)
    ensures
        TargetWhiteValue::spec_parse(v.spec_command()) == Ok::<TargetWhiteValue, Error>(v),
{
    lemma_parse_bounded_of_rendered(v.value as nat, 'W', DelimiterKind::UppercaseOrPercent, 0, 255);
}

/// A fragment without the letter `W` decodes to no value of this field.
pub proof fn lemma_try_from_absent(s: Seq<char>)
    requires
        forall|i: int| 0 <= i < s.len() ==> s[i] != 'W',
    ensures
        TargetWhiteValue::spec_parse(s) == Err::<TargetWhiteValue, Error>(Error::InvalidVariant),
{
    lemma_find_char_absent(s, 'W');
}

} // verus!
