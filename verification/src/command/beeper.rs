//! The image snap beeper field.

use vstd::prelude::*;

use crate::result::Error;
use crate::text::contains_seq;
use crate::text::lemma_contains_self;
use crate::text::lemma_not_contains_missing_char;
use crate::text::lemma_not_contains_same_len;
use crate::text::str_contains;

verus! {

/// Sets the image snap beeper.
#[derive(Clone, Copy, Debug, Eq, PartialEq)]
pub enum Beeper {
    /// No beep.
    Off,
    /// Beeps when an image is captured.
    On,
}

impl Beeper {
    /// The fixed ASCII token for this variant.
    pub open spec fn spec_command(self) -> Seq<char> {
        match self {
            Beeper::Off => "0B"@,
            Beeper::On => "1B"@,
        }
    }

    /// Decoding a fragment yields the first variant, in declared order,
    /// whose token the fragment contains.
    pub open spec fn spec_try_from(s: Seq<char>) -> Result<Beeper, Error> {
        if contains_seq(s, "0B"@) {
            Ok(Beeper::Off)
        } else if contains_seq(s, "1B"@) {
            Ok(Beeper::On)
        } else {
            Err(Error::InvalidVariant)
        }
    }

    /// Creates a new [Beeper].
    pub fn new() -> (r: Self)
        ensures
            r == Beeper::Off,
    {
        Self::Off
    }

    /// Gets the ASCII serial command code for [Beeper].
    pub fn command(&self) -> (r: &'static str)
        ensures
            r@ == self.spec_command(),
    {
        match self {
            Self::Off => "0B",
            Self::On => "1B",
        }
    }

    /// Decodes a [Beeper] from a fragment containing one of its tokens.
    pub fn try_from(val: &str) -> (r: Result<Self, Error>)
        ensures
            r == Beeper::spec_try_from(val@),
    {
        if str_contains(val, "0B") {
            Ok(Self::Off)
        } else if str_contains(val, "1B") {
            Ok(Self::On)
        } else {
            Err(Error::InvalidVariant)
        }
    }
}

impl Default for Beeper {
    fn default() -> (r: Self)
        ensures
            r == Beeper::Off,
    {
        Self::new()
    }
}

/// Round trip: decoding an encoded variant yields that variant.
pub proof fn lemma_round_trip(v: Beeper)
    ensures
        Beeper::spec_try_from(v.spec_command()) == Ok::<Beeper, Error>(v),
{
    reveal_strlit("0B");
    reveal_strlit("1B");
    lemma_contains_self(v.spec_command());
    if v is On {
        lemma_not_contains_same_len("1B"@, "0B"@, 0);
    }
}

/// Every character of an encoded fragment of this field is one of its
/// tokens' characters: any other character does not occur.
pub proof fn lemma_command_chars(v: Beeper, c: char)
    requires
        c != '0',
        c != '1',
        c != 'B',
    ensures
        forall|i: int| 0 <= i < v.spec_command().len() ==> v.spec_command()[i] != c,
{
    reveal_strlit("0B");
    reveal_strlit("1B");
    match v {
        Beeper::Off => {
            assert(forall|i: int| 0 <= i < "0B"@.len() ==> "0B"@[i] != c);
        },
        Beeper::On => {
            assert(forall|i: int| 0 <= i < "1B"@.len() ==> "1B"@[i] != c);
        },
    }
}

/// A fragment without the letter `B` decodes to no beeper.
pub proof fn lemma_try_from_absent(s: Seq<char>)
    requires
        forall|i: int| 0 <= i < s.len() ==> s[i] != 'B',
    ensures
        Beeper::spec_try_from(s) == Err::<Beeper, Error>(Error::InvalidVariant),
{
    reveal_strlit("0B");
    reveal_strlit("1B");
    lemma_not_contains_missing_char(s, "0B"@, 1);
    lemma_not_contains_missing_char(s, "1B"@, 1);
}

} // verus!
