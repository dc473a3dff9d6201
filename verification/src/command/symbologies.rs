//! The all-symbologies serial command.

use vstd::prelude::*;

use crate::result::Error;
use crate::text::contains_seq;
use crate::text::lemma_contains_self;
use crate::text::lemma_not_contains_same_len;
use crate::text::str_contains;

verus! {

/// Configure all barcode symbology encodings.
#[derive(Clone, Copy, Debug, Eq, PartialEq)]
pub enum AllSymbologies {
    /// All symbologies disabled.
    Off,
    /// All symbologies enabled.
    On,
}

impl AllSymbologies {
    /// The fixed ASCII token for this variant.
    pub open spec fn spec_command(self) -> Seq<char> {
        match self {
            AllSymbologies::Off => "ALLENA0"@,
            AllSymbologies::On => "ALLENA1"@,
        }
    }

    /// Decoding a fragment yields the first variant, in declared order,
    /// whose token the fragment contains.
    pub open spec fn spec_try_from(s: Seq<char>) -> Result<AllSymbologies, Error> {
        if contains_seq(s, "ALLENA0"@) {
            Ok(AllSymbologies::Off)
        } else if contains_seq(s, "ALLENA1"@) {
            Ok(AllSymbologies::On)
        } else {
            Err(Error::InvalidVariant)
        }
    }

    /// Creates a new [AllSymbologies].
    pub fn new() -> (r: Self)
        ensures
            r == AllSymbologies::Off,
    {
        Self::Off
    }

    /// Gets the ASCII serial command code for [AllSymbologies].
    pub fn command(&self) -> (r: &'static str)
        ensures
            r@ == self.spec_command(),
    {
        match self {
            Self::Off => "ALLENA0",
            Self::On => "ALLENA1",
        }
    }

    /// Decodes a [AllSymbologies] from a fragment containing one of its tokens.
    pub fn try_from(val: &str) -> (r: Result<Self, Error>)
        ensures
            r == AllSymbologies::spec_try_from(val@),
    {
        if str_contains(val, "ALLENA0") {
            Ok(Self::Off)
        } else if str_contains(val, "ALLENA1") {
            Ok(Self::On)
        } else {
            Err(Error::InvalidVariant)
        }
    }
}

impl Default for AllSymbologies {
    fn default() -> (r: Self)
        ensures
            r == AllSymbologies::Off,
    {
        Self::new()
    }
}

/// Round trip: decoding an encoded variant yields that variant.
pub proof fn lemma_round_trip(v: AllSymbologies)
    ensures
        AllSymbologies::spec_try_from(v.spec_command()) == Ok::<AllSymbologies, Error>(v),
{
    reveal_strlit("ALLENA0");
    reveal_strlit("ALLENA1");
    lemma_contains_self(v.spec_command());
    match v {
        AllSymbologies::Off => {
        },
        AllSymbologies::On => {
            lemma_not_contains_same_len("ALLENA1"@, "ALLENA0"@, 6);
        },
    }
}

} // verus!
