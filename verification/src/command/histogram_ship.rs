//! The image ship histogram ship field.

use vstd::prelude::*;

use crate::result::Error;
use crate::text::contains_seq;
use crate::text::lemma_contains_self;
use crate::text::lemma_not_contains_missing_char;
use crate::text::lemma_not_contains_same_len;
use crate::text::str_contains;

verus! {

/// Sets the image ship histogram ship.
#[derive(Clone, Copy, Debug, Eq, PartialEq)]
pub enum HistogramShip {
    /// Histogram not shipped.
    Off,
    /// Histogram shipped.
    On,
}

impl HistogramShip {
    /// The fixed ASCII token for this variant.
    pub open spec fn spec_command(self) -> Seq<char> {
        match self {
            HistogramShip::Off => "0W"@,
            HistogramShip::On => "1W"@,
        }
    }

    /// Decoding a fragment yields the first variant, in declared order,
    /// whose token the fragment contains.
    pub open spec fn spec_try_from(s: Seq<char>) -> Result<HistogramShip, Error> {
        if contains_seq(s, "0W"@) {
            Ok(HistogramShip::Off)
        } else if contains_seq(s, "1W"@) {
            Ok(HistogramShip::On)
        } else {
            Err(Error::InvalidVariant)
        }
    }

    /// Creates a new [HistogramShip].
    pub fn new() -> (r: Self)
        ensures
            r == HistogramShip::Off,
    {
        Self::Off
    }

    /// Gets the ASCII serial command code for [HistogramShip].
    pub fn command(&self) -> (r: &'static str)
        ensures
            r@ == self.spec_command(),
    {
        match self {
            Self::Off => "0W",
            Self::On => "1W",
        }
    }

    /// Decodes a [HistogramShip] from a fragment containing one of its tokens.
    pub fn try_from(val: &str) -> (r: Result<Self, Error>)
        ensures
            r == HistogramShip::spec_try_from(val@),
    {
        if str_contains(val, "0W") {
            Ok(Self::Off)
        } else if str_contains(val, "1W") {
            Ok(Self::On)
        } else {
            Err(Error::InvalidVariant)
        }
    }
}

impl Default for HistogramShip {
    fn default() -> (r: Self)
        ensures
            r == HistogramShip::Off,
    {
        Self::new()
    }
}

/// Round trip: decoding an encoded variant yields that variant.
pub proof fn lemma_round_trip(v: HistogramShip)
    ensures
        HistogramShip::spec_try_from(v.spec_command()) == Ok::<HistogramShip, Error>(v),
{
    reveal_strlit("0W");
    reveal_strlit("1W");
    lemma_contains_self(v.spec_command());
    match v {
        HistogramShip::Off => {
        },
        HistogramShip::On => {
            lemma_not_contains_same_len("1W"@, "0W"@, 0);
        },
    }
}

/// Every character of an encoded fragment of this field is one of its
/// tokens' characters: any other character does not occur.
pub proof fn lemma_command_chars(v: HistogramShip, c: char)
    requires
        c != '0',
        c != '1',
        c != 'W',
    ensures
        forall|i: int| 0 <= i < v.spec_command().len() ==> v.spec_command()[i] != c,
{
    reveal_strlit("0W");
    reveal_strlit("1W");
    match v {
        HistogramShip::Off => {
            assert(forall|i: int| 0 <= i < "0W"@.len() ==> "0W"@[i] != c);
        },
        HistogramShip::On => {
            assert(forall|i: int| 0 <= i < "1W"@.len() ==> "1W"@[i] != c);
        },
    }
}

/// A fragment without the letter `W` decodes to no value of this
/// field.
pub proof fn lemma_try_from_absent(s: Seq<char>)
    requires
        forall|i: int| 0 <= i < s.len() ==> s[i] != 'W',
    ensures
        HistogramShip::spec_try_from(s) == Err::<HistogramShip, Error>(Error::InvalidVariant),
{
    reveal_strlit("0W");
    reveal_strlit("1W");
    lemma_not_contains_missing_char(s, "0W"@, 1);
    lemma_not_contains_missing_char(s, "1W"@, 1);
}

} // verus!
