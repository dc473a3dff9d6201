//! The image ship infinity filter field.

use vstd::prelude::*;

use crate::result::Error;
use crate::text::contains_seq;
use crate::text::lemma_contains_self;
use crate::text::lemma_not_contains_missing_char;
use crate::text::lemma_not_contains_same_len;
use crate::text::str_contains;

verus! {

/// Sets the image ship infinity filter.
#[derive(Clone, Copy, Debug, Eq, PartialEq)]
pub enum InfinityFilter {
    /// Infinity filter off.
    Off,
    /// Infinity filter on.
    On,
}

impl InfinityFilter {
    /// The fixed ASCII token for this variant.
    pub open spec fn spec_command(self) -> Seq<char> {
        match self {
            InfinityFilter::Off => "0A"@,
            InfinityFilter::On => "1A"@,
        }
    }

    /// Decoding a fragment yields the first variant, in declared order,
    /// whose token the fragment contains.
    pub open spec fn spec_try_from(s: Seq<char>) -> Result<InfinityFilter, Error> {
        if contains_seq(s, "0A"@) {
            Ok(InfinityFilter::Off)
        } else if contains_seq(s, "1A"@) {
            Ok(InfinityFilter::On)
        } else {
            Err(Error::InvalidVariant)
        }
    }

    /// Creates a new [InfinityFilter].
    pub fn new() -> (r: Self)
        ensures
            r == InfinityFilter::Off,
    {
        Self::Off
    }

    /// Gets the ASCII serial command code for [InfinityFilter].
    pub fn command(&self) -> (r: &'static str)
        ensures
            r@ == self.spec_command(),
    {
        match self {
            Self::Off => "0A",
            Self::On => "1A",
        }
    }

    /// Decodes a [InfinityFilter] from a fragment containing one of its tokens.
    pub fn try_from(val: &str) -> (r: Result<Self, Error>)
        ensures
            r == InfinityFilter::spec_try_from(val@),
    {
        if str_contains(val, "0A") {
            Ok(Self::Off)
        } else if str_contains(val, "1A") {
            Ok(Self::On)
        } else {
            Err(Error::InvalidVariant)
        }
    }
}

impl Default for InfinityFilter {
    fn default() -> (r: Self)
        ensures
            r == InfinityFilter::Off,
    {
        Self::new()
    }
}

/// Round trip: decoding an encoded variant yields that variant.
pub proof fn lemma_round_trip(v: InfinityFilter)
    ensures
        InfinityFilter::spec_try_from(v.spec_command()) == Ok::<InfinityFilter, Error>(v),
{
    reveal_strlit("0A");
    reveal_strlit("1A");
    lemma_contains_self(v.spec_command());
    match v {
        InfinityFilter::Off => {
        },
        InfinityFilter::On => {
            lemma_not_contains_same_len("1A"@, "0A"@, 0);
        },
    }
}

/// Every character of an encoded fragment of this field is one of its
/// tokens' characters: any other character does not occur.
pub proof fn lemma_command_chars(v: InfinityFilter, c: char)
    requires
        c != '0',
        c != '1',
        c != 'A',
    ensures
        forall|i: int| 0 <= i < v.spec_command().len() ==> v.spec_command()[i] != c,
{
    reveal_strlit("0A");
    reveal_strlit("1A");
    match v {
        InfinityFilter::Off => {
            assert(forall|i: int| 0 <= i < "0A"@.len() ==> "0A"@[i] != c);
        },
        InfinityFilter::On => {
            assert(forall|i: int| 0 <= i < "1A"@.len() ==> "1A"@[i] != c);
        },
    }
}

/// A fragment without the letter `A` decodes to no value of this
/// field.
pub proof fn lemma_try_from_absent(s: Seq<char>)
    requires
        forall|i: int| 0 <= i < s.len() ==> s[i] != 'A',
    ensures
        InfinityFilter::spec_try_from(s) == Err::<InfinityFilter, Error>(Error::InvalidVariant),
{
    reveal_strlit("0A");
    reveal_strlit("1A");
    lemma_not_contains_missing_char(s, "0A"@, 1);
    lemma_not_contains_missing_char(s, "1A"@, 1);
}

} // verus!
