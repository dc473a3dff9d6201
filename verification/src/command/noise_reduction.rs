//! The image ship noise reduction field.

use vstd::prelude::*;

use crate::result::Error;
use crate::text::contains_seq;
use crate::text::lemma_contains_self;
use crate::text::lemma_not_contains_missing_char;
use crate::text::lemma_not_contains_same_len;
use crate::text::str_contains;

verus! {

/// Sets the image ship noise reduction.
#[derive(Clone, Copy, Debug, Eq, PartialEq)]
pub enum NoiseReduction {
    /// Noise reduction off.
    Off,
    /// Salt-and-pepper noise reduction on.
    On,
}

impl NoiseReduction {
    /// The fixed ASCII token for this variant.
    pub open spec fn spec_command(self) -> Seq<char> {
        match self {
            NoiseReduction::Off => "0if"@,
            NoiseReduction::On => "1if"@,
        }
    }

    /// Decoding a fragment yields the first variant, in declared order,
    /// whose token the fragment contains.
    pub open spec fn spec_try_from(s: Seq<char>) -> Result<NoiseReduction, Error> {
        if contains_seq(s, "0if"@) {
            Ok(NoiseReduction::Off)
        } else if contains_seq(s, "1if"@) {
            Ok(NoiseReduction::On)
        } else {
            Err(Error::InvalidVariant)
        }
    }

    /// Creates a new [NoiseReduction].
    pub fn new() -> (r: Self)
        ensures
            r == NoiseReduction::Off,
    {
        Self::Off
    }

    /// Gets the ASCII serial command code for [NoiseReduction].
    pub fn command(&self) -> (r: &'static str)
        ensures
            r@ == self.spec_command(),
    {
        match self {
            Self::Off => "0if",
            Self::On => "1if",
        }
    }

    /// Decodes a [NoiseReduction] from a fragment containing one of its tokens.
    pub fn try_from(val: &str) -> (r: Result<Self, Error>)
        ensures
            r == NoiseReduction::spec_try_from(val@),
    {
        if str_contains(val, "0if") {
            Ok(Self::Off)
        } else if str_contains(val, "1if") {
            Ok(Self::On)
        } else {
            Err(Error::InvalidVariant)
        }
    }
}

impl Default for NoiseReduction {
    fn default() -> (r: Self)
        ensures
            r == NoiseReduction::Off,
    {
        Self::new()
    }
}

/// Round trip: decoding an encoded variant yields that variant.
pub proof fn lemma_round_trip(v: NoiseReduction)
    ensures
        NoiseReduction::spec_try_from(v.spec_command()) == Ok::<NoiseReduction, Error>(v),
{
    reveal_strlit("0if");
    reveal_strlit("1if");
    lemma_contains_self(v.spec_command());
    match v {
        NoiseReduction::Off => {
        },
        NoiseReduction::On => {
            lemma_not_contains_same_len("1if"@, "0if"@, 0);
        },
    }
}

/// Every character of an encoded fragment of this field is one of its
/// tokens' characters: any other character does not occur.
pub proof fn lemma_command_chars(v: NoiseReduction, c: char)
    requires
        c != '0',
        c != '1',
        c != 'f',
        c != 'i',
    ensures
        forall|i: int| 0 <= i < v.spec_command().len() ==> v.spec_command()[i] != c,
{
    reveal_strlit("0if");
    reveal_strlit("1if");
    match v {
        NoiseReduction::Off => {
            assert(forall|i: int| 0 <= i < "0if"@.len() ==> "0if"@[i] != c);
        },
        NoiseReduction::On => {
            assert(forall|i: int| 0 <= i < "1if"@.len() ==> "1if"@[i] != c);
        },
    }
}

/// A fragment without the letter `f` decodes to no value of this
/// field.
pub proof fn lemma_try_from_absent(s: Seq<char>)
    requires
        forall|i: int| 0 <= i < s.len() ==> s[i] != 'f',
    ensures
        NoiseReduction::spec_try_from(s) == Err::<NoiseReduction, Error>(Error::InvalidVariant),
{
    reveal_strlit("0if");
    reveal_strlit("1if");
    lemma_not_contains_missing_char(s, "0if"@, 2);
    lemma_not_contains_missing_char(s, "1if"@, 2);
}

} // verus!
