//! The image ship pixel ship field.

use vstd::prelude::*;

use crate::result::Error;
use crate::text::contains_seq;
use crate::text::lemma_contains_self;
use crate::text::lemma_not_contains_missing_char;
use crate::text::lemma_not_contains_same_len;
use crate::text::str_contains;

verus! {

/// Sets the image ship pixel ship.
#[derive(Clone, Copy, Debug, Eq, PartialEq)]
pub enum PixelShip {
    /// Skip 1 pixel every 1 line.
    Skip1,
    /// Skip 2 pixels every 2 lines.
    Skip2,
    /// Skip 3 pixels every 3 lines.
    Skip3,
}

impl PixelShip {
    /// The fixed ASCII token for this variant.
    pub open spec fn spec_command(self) -> Seq<char> {
        match self {
            PixelShip::Skip1 => "1S"@,
            PixelShip::Skip2 => "2S"@,
            PixelShip::Skip3 => "3S"@,
        }
    }

    /// Decoding a fragment yields the first variant, in declared order,
    /// whose token the fragment contains.
    pub open spec fn spec_try_from(s: Seq<char>) -> Result<PixelShip, Error> {
        if contains_seq(s, "1S"@) {
            Ok(PixelShip::Skip1)
        } else if contains_seq(s, "2S"@) {
            Ok(PixelShip::Skip2)
        } else if contains_seq(s, "3S"@) {
            Ok(PixelShip::Skip3)
        } else {
            Err(Error::InvalidVariant)
        }
    }

    /// Creates a new [PixelShip].
    pub fn new() -> (r: Self)
        ensures
            r == PixelShip::Skip1,
    {
        Self::Skip1
    }

    /// Gets the ASCII serial command code for [PixelShip].
    pub fn command(&self) -> (r: &'static str)
        ensures
            r@ == self.spec_command(),
    {
        match self {
            Self::Skip1 => "1S",
            Self::Skip2 => "2S",
            Self::Skip3 => "3S",
        }
    }

    /// Decodes a [PixelShip] from a fragment containing one of its tokens.
    pub fn try_from(val: &str) -> (r: Result<Self, Error>)
        ensures
            r == PixelShip::spec_try_from(val@),
    {
        if str_contains(val, "1S") {
            Ok(Self::Skip1)
        } else if str_contains(val, "2S") {
            Ok(Self::Skip2)
        } else if str_contains(val, "3S") {
            Ok(Self::Skip3)
        } else {
            Err(Error::InvalidVariant)
        }
    }
}

impl Default for PixelShip {
    fn default() -> (r: Self)
        ensures
            r == PixelShip::Skip1,
    {
        Self::new()
    }
}

/// Round trip: decoding an encoded variant yields that variant.
pub proof fn lemma_round_trip(v: PixelShip)
    ensures
        PixelShip::spec_try_from(v.spec_command()) == Ok::<PixelShip, Error>(v),
{
    reveal_strlit("1S");
    reveal_strlit("2S");
    reveal_strlit("3S");
    lemma_contains_self(v.spec_command());
    match v {
        PixelShip::Skip1 => {
        },
        PixelShip::Skip2 => {
            lemma_not_contains_same_len("2S"@, "1S"@, 0);
        },
        PixelShip::Skip3 => {
            lemma_not_contains_same_len("3S"@, "1S"@, 0);
            lemma_not_contains_same_len("3S"@, "2S"@, 0);
        },
    }
}

/// Every character of an encoded fragment of this field is one of its
/// tokens' characters: any other character does not occur.
pub proof fn lemma_command_chars(v: PixelShip, c: char)
    requires
        c != '1',
        c != '2',
        c != '3',
        c != 'S',
    ensures
        forall|i: int| 0 <= i < v.spec_command().len() ==> v.spec_command()[i] != c,
{
    reveal_strlit("1S");
    reveal_strlit("2S");
    reveal_strlit("3S");
    match v {
        PixelShip::Skip1 => {
            assert(forall|i: int| 0 <= i < "1S"@.len() ==> "1S"@[i] != c);
        },
        PixelShip::Skip2 => {
            assert(forall|i: int| 0 <= i < "2S"@.len() ==> "2S"@[i] != c);
        },
        PixelShip::Skip3 => {
            assert(forall|i: int| 0 <= i < "3S"@.len() ==> "3S"@[i] != c);
        },
    }
}

/// A fragment without the letter `S` decodes to no value of this
/// field.
pub proof fn lemma_try_from_absent(s: Seq<char>)
    requires
        forall|i: int| 0 <= i < s.len() ==> s[i] != 'S',
    ensures
        PixelShip::spec_try_from(s) == Err::<PixelShip, Error>(Error::InvalidVariant),
{
    reveal_strlit("1S");
    reveal_strlit("2S");
    reveal_strlit("3S");
    lemma_not_contains_missing_char(s, "1S"@, 1);
    lemma_not_contains_missing_char(s, "2S"@, 1);
    lemma_not_contains_missing_char(s, "3S"@, 1);
}

} // verus!
