//! The image ship histogram stretch field.

use vstd::prelude::*;

use crate::result::Error;
use crate::text::contains_seq;
use crate::text::lemma_contains_self;
use crate::text::lemma_not_contains_missing_char;
use crate::text::lemma_not_contains_same_len;
use crate::text::str_contains;

verus! {

/// Sets the image ship histogram stretch.
#[derive(Clone, Copy, Debug, Eq, PartialEq)]
pub enum HistogramStretch {
    /// Histogram stretch disabled.
    Off,
    /// Histogram stretch enabled.
    On,
}

impl HistogramStretch {
    /// The fixed ASCII token for this variant.
    pub open spec fn spec_command(self) -> Seq<char> {
        match self {
            HistogramStretch::Off => "0H"@,
            HistogramStretch::On => "1H"@,
        }
    }

    /// Decoding a fragment yields the first variant, in declared order,
    /// whose token the fragment contains.
    pub open spec fn spec_try_from(s: Seq<char>) -> Result<HistogramStretch, Error> {
        if contains_seq(s, "0H"@) {
            Ok(HistogramStretch::Off)
        } else if contains_seq(s, "1H"@) {
            Ok(HistogramStretch::On)
        } else {
            Err(Error::InvalidVariant)
        }
    }

    /// Creates a new [HistogramStretch].
    pub fn new() -> (r: Self)
        ensures
            r == HistogramStretch::Off,
    {
        Self::Off
    }

    /// Gets the ASCII serial command code for [HistogramStretch].
    pub fn command(&self) -> (r: &'static str)
        ensures
            r@ == self.spec_command(),
    {
        match self {
            Self::Off => "0H",
            Self::On => "1H",
        }
    }

    /// Decodes a [HistogramStretch] from a fragment containing one of its tokens.
    pub fn try_from(val: &str) -> (r: Result<Self, Error>)
        ensures
            r == HistogramStretch::spec_try_from(val@),
    {
        if str_contains(val, "0H") {
            Ok(Self::Off)
        } else if str_contains(val, "1H") {
            Ok(Self::On)
        } else {
            Err(Error::InvalidVariant)
        }
    }
}

impl Default for HistogramStretch {
    fn default() -> (r: Self)
        ensures
            r == HistogramStretch::Off,
    {
        Self::new()
    }
}

/// Round trip: decoding an encoded variant yields that variant.
pub proof fn lemma_round_trip(v: HistogramStretch)
    ensures
        HistogramStretch::spec_try_from(v.spec_command()) == Ok::<HistogramStretch, Error>(v),
{
    reveal_strlit("0H");
    reveal_strlit("1H");
    lemma_contains_self(v.spec_command());
    match v {
        HistogramStretch::Off => {
        },
        HistogramStretch::On => {
            lemma_not_contains_same_len("1H"@, "0H"@, 0);
        },
    }
}

/// Every character of an encoded fragment of this field is one of its
/// tokens' characters: any other character does not occur.
pub proof fn lemma_command_chars(v: HistogramStretch, c: char)
    requires
        c != '0',
        c != '1',
        c != 'H',
    ensures
        forall|i: int| 0 <= i < v.spec_command().len() ==> v.spec_command()[i] != c,
{
    reveal_strlit("0H");
    reveal_strlit("1H");
    match v {
        HistogramStretch::Off => {
            assert(forall|i: int| 0 <= i < "0H"@.len() ==> "0H"@[i] != c);
        },
        HistogramStretch::On => {
            assert(forall|i: int| 0 <= i < "1H"@.len() ==> "1H"@[i] != c);
        },
    }
}

/// A fragment without the letter `H` decodes to no value of this
/// field.
pub proof fn lemma_try_from_absent(s: Seq<char>)
    requires
        forall|i: int| 0 <= i < s.len() ==> s[i] != 'H',
    ensures
        HistogramStretch::spec_try_from(s) == Err::<HistogramStretch, Error>(Error::InvalidVariant),
{
    reveal_strlit("0H");
    reveal_strlit("1H");
    lemma_not_contains_missing_char(s, "0H"@, 1);
    lemma_not_contains_missing_char(s, "1H"@, 1);
}

} // verus!
