//! The image snap wait-for-trigger field.

use vstd::prelude::*;

use crate::result::Error;
use crate::text::contains_seq;
use crate::text::lemma_contains_self;
use crate::text::lemma_not_contains_missing_char;
use crate::text::lemma_not_contains_same_len;
use crate::text::str_contains;

verus! {

/// Sets the image snap wait for trigger.
#[derive(Clone, Copy, Debug, Eq, PartialEq)]
pub enum WaitForTrigger {
    /// Snap immediately, without waiting for a trigger.
    NoWait,
    /// Wait for a trigger before capturing the image.
    Wait,
}

impl WaitForTrigger {
    /// The fixed ASCII token for this variant.
    pub open spec fn spec_command(self) -> Seq<char> {
        match self {
            WaitForTrigger::NoWait => "0T"@,
            WaitForTrigger::Wait => "1T"@,
        }
    }

    /// Decoding a fragment yields the first variant, in declared order,
    /// whose token the fragment contains.
    pub open spec fn spec_try_from(s: Seq<char>) -> Result<WaitForTrigger, Error> {
        if contains_seq(s, "0T"@) {
            Ok(WaitForTrigger::NoWait)
        } else if contains_seq(s, "1T"@) {
            Ok(WaitForTrigger::Wait)
        } else {
            Err(Error::InvalidVariant)
        }
    }

    /// Creates a new [WaitForTrigger].
    pub fn new() -> (r: Self)
        ensures
            r == WaitForTrigger::NoWait,
    {
        Self::NoWait
    }

    /// Gets the ASCII serial command code for [WaitForTrigger].
    pub fn command(&self) -> (r: &'static str)
        ensures
            r@ == self.spec_command(),
    {
        match self {
            Self::NoWait => "0T",
            Self::Wait => "1T",
        }
    }

    /// Decodes a [WaitForTrigger] from a fragment containing one of its tokens.
    pub fn try_from(val: &str) -> (r: Result<Self, Error>)
        ensures
            r == WaitForTrigger::spec_try_from(val@),
    {
        if str_contains(val, "0T") {
            Ok(Self::NoWait)
        } else if str_contains(val, "1T") {
            Ok(Self::Wait)
        } else {
            Err(Error::InvalidVariant)
        }
    }
}

impl Default for WaitForTrigger {
    fn default() -> (r: Self)
        ensures
            r == WaitForTrigger::NoWait,
    {
        Self::new()
    }
}

/// Round trip: decoding an encoded variant yields that variant.
pub proof fn lemma_round_trip(v: WaitForTrigger)
    ensures
        WaitForTrigger::spec_try_from(v.spec_command()) == Ok::<WaitForTrigger, Error>(v),
{
    reveal_strlit("0T");
    reveal_strlit("1T");
    lemma_contains_self(v.spec_command());
    match v {
        WaitForTrigger::NoWait => {
        },
        WaitForTrigger::Wait => {
            lemma_not_contains_same_len("1T"@, "0T"@, 0);
        },
    }
}

/// Every character of an encoded fragment of this field is one of its
/// tokens' characters: any other character does not occur.
pub proof fn lemma_command_chars(v: WaitForTrigger, c: char)
    requires
        c != '0',
        c != '1',
        c != 'T',
    ensures
        forall|i: int| 0 <= i < v.spec_command().len() ==> v.spec_command()[i] != c,
{
    reveal_strlit("0T");
    reveal_strlit("1T");
    match v {
        WaitForTrigger::NoWait => {
            assert(forall|i: int| 0 <= i < "0T"@.len() ==> "0T"@[i] != c);
        },
        WaitForTrigger::Wait => {
            assert(forall|i: int| 0 <= i < "1T"@.len() ==> "1T"@[i] != c);
        },
    }
}

/// A fragment without the letter `T` decodes to no value of this
/// field.
pub proof fn lemma_try_from_absent(s: Seq<char>)
    requires
        forall|i: int| 0 <= i < s.len() ==> s[i] != 'T',
    ensures
        WaitForTrigger::spec_try_from(s) == Err::<WaitForTrigger, Error>(Error::InvalidVariant),
{
    reveal_strlit("0T");
    reveal_strlit("1T");
    lemma_not_contains_missing_char(s, "0T"@, 1);
    lemma_not_contains_missing_char(s, "1T"@, 1);
}

} // verus!
