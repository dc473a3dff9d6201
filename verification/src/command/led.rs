//! The image snap LED field.

use vstd::prelude::*;

use crate::result::Error;
use crate::text::contains_seq;
use crate::text::lemma_contains_self;
use crate::text::lemma_not_contains_missing_char;
use crate::text::lemma_not_contains_same_len;
use crate::text::str_contains;

verus! {

/// Sets the image snap LEDs.
#[derive(Clone, Copy, Debug, Eq, PartialEq)]
pub enum LED {
    /// LEDs off.
    Off,
    /// LEDs on.
    On,
}

impl LED {
    /// The fixed ASCII token for this variant.
    pub open spec fn spec_command(self) -> Seq<char> {
        match self {
            LED::Off => "0L"@,
            LED::On => "1L"@,
        }
    }

    /// Decoding a fragment yields the first variant, in declared order,
    /// whose token the fragment contains.
    pub open spec fn spec_try_from(s: Seq<char>) -> Result<LED, Error> {
        if contains_seq(s, "0L"@) {
            Ok(LED::Off)
        } else if contains_seq(s, "1L"@) {
            Ok(LED::On)
        } else {
            Err(Error::InvalidVariant)
        }
    }

    /// Creates a new [LED].
    pub fn new() -> (r: Self)
        ensures
            r == LED::Off,
    {
        Self::Off
    }

    /// Gets the ASCII serial command code for [LED].
    pub fn command(&self) -> (r: &'static str)
        ensures
            r@ == self.spec_command(),
    {
        match self {
            Self::Off => "0L",
            Self::On => "1L",
        }
    }

    /// Decodes a [LED] from a fragment containing one of its tokens.
    pub fn try_from(val: &str) -> (r: Result<Self, Error>)
        ensures
            r == LED::spec_try_from(val@),
    {
        if str_contains(val, "0L") {
            Ok(Self::Off)
        } else if str_contains(val, "1L") {
            Ok(Self::On)
        } else {
            Err(Error::InvalidVariant)
        }
    }
}

impl Default for LED {
    fn default() -> (r: Self)
        ensures
            r == LED::Off,
    {
        Self::new()
    }
}

/// Round trip: decoding an encoded variant yields that variant.
pub proof fn lemma_round_trip(v: LED)
    ensures
        LED::spec_try_from(v.spec_command()) == Ok::<LED, Error>(v),
{
    reveal_strlit("0L");
    reveal_strlit("1L");
    lemma_contains_self(v.spec_command());
    match v {
        LED::Off => {
        },
        LED::On => {
            lemma_not_contains_same_len("1L"@, "0L"@, 0);
        },
    }
}

/// Every character of an encoded fragment of this field is one of its
/// tokens' characters: any other character does not occur.
pub proof fn lemma_command_chars(v: LED, c: char)
    requires
        c != '0',
        c != '1',
        c != 'L',
    ensures
        forall|i: int| 0 <= i < v.spec_command().len() ==> v.spec_command()[i] != c,
{
    reveal_strlit("0L");
    reveal_strlit("1L");
    match v {
        LED::Off => {
            assert(forall|i: int| 0 <= i < "0L"@.len() ==> "0L"@[i] != c);
        },
        LED::On => {
            assert(forall|i: int| 0 <= i < "1L"@.len() ==> "1L"@[i] != c);
        },
    }
}

/// A fragment without the letter `L` decodes to no value of this
/// field.
pub proof fn lemma_try_from_absent(s: Seq<char>)
    requires
        forall|i: int| 0 <= i < s.len() ==> s[i] != 'L',
    ensures
        LED::spec_try_from(s) == Err::<LED, Error>(Error::InvalidVariant),
{
    reveal_strlit("0L");
    reveal_strlit("1L");
    lemma_not_contains_missing_char(s, "0L"@, 1);
    lemma_not_contains_missing_char(s, "1L"@, 1);
}

} // verus!
