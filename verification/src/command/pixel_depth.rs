//! The image ship pixel depth field.

use vstd::prelude::*;

use crate::result::Error;
use crate::text::contains_seq;
use crate::text::lemma_contains_self;
use crate::text::lemma_not_contains_missing_char;
use crate::text::lemma_not_contains_same_len;
use crate::text::str_contains;

verus! {

/// Sets the image ship pixel depth.
#[derive(Clone, Copy, Debug, Eq, PartialEq)]
pub enum PixelDepth {
    /// 8 bits per pixel, grayscale.
    Bit8,
    /// 1 bit per pixel, black and white.
    Bit1,
}

impl PixelDepth {
    /// The fixed ASCII token for this variant.
    pub open spec fn spec_command(self) -> Seq<char> {
        match self {
            PixelDepth::Bit8 => "8D"@,
            PixelDepth::Bit1 => "1D"@,
        }
    }

    /// Decoding a fragment yields the first variant, in declared order,
    /// whose token the fragment contains.
    pub open spec fn spec_try_from(s: Seq<char>) -> Result<PixelDepth, Error> {
        if contains_seq(s, "8D"@) {
            Ok(PixelDepth::Bit8)
        } else if contains_seq(s, "1D"@) {
            Ok(PixelDepth::Bit1)
        } else {
            Err(Error::InvalidVariant)
        }
    }

    /// Creates a new [PixelDepth].
    pub fn new() -> (r: Self)
        ensures
            r == PixelDepth::Bit8,
    {
        Self::Bit8
    }

    /// Gets the ASCII serial command code for [PixelDepth].
    pub fn command(&self) -> (r: &'static str)
        ensures
            r@ == self.spec_command(),
    {
        match self {
            Self::Bit8 => "8D",
            Self::Bit1 => "1D",
        }
    }

    /// Decodes a [PixelDepth] from a fragment containing one of its tokens.
    pub fn try_from(val: &str) -> (r: Result<Self, Error>)
        ensures
            r == PixelDepth::spec_try_from(val@),
    {
        if str_contains(val, "8D") {
            Ok(Self::Bit8)
        } else if str_contains(val, "1D") {
            Ok(Self::Bit1)
        } else {
            Err(Error::InvalidVariant)
        }
    }
}

impl Default for PixelDepth {
    fn default() -> (r: Self)
        ensures
            r == PixelDepth::Bit8,
    {
        Self::new()
    }
}

/// Round trip: decoding an encoded variant yields that variant.
pub proof fn lemma_round_trip(v: PixelDepth)
    ensures
        PixelDepth::spec_try_from(v.spec_command()) == Ok::<PixelDepth, Error>(v),
{
    reveal_strlit("8D");
    reveal_strlit("1D");
    lemma_contains_self(v.spec_command());
    match v {
        PixelDepth::Bit8 => {
        },
        PixelDepth::Bit1 => {
            lemma_not_contains_same_len("1D"@, "8D"@, 0);
        },
    }
}

/// Every character of an encoded fragment of this field is one of its
/// tokens' characters: any other character does not occur.
pub proof fn lemma_command_chars(v: PixelDepth, c: char)
    requires
        c != '1',
        c != '8',
        c != 'D',
    ensures
        forall|i: int| 0 <= i < v.spec_command().len() ==> v.spec_command()[i] != c,
{
    reveal_strlit("8D");
    reveal_strlit("1D");
    match v {
        PixelDepth::Bit8 => {
            assert(forall|i: int| 0 <= i < "8D"@.len() ==> "8D"@[i] != c);
        },
        PixelDepth::Bit1 => {
            assert(forall|i: int| 0 <= i < "1D"@.len() ==> "1D"@[i] != c);
        },
    }
}

/// A fragment without the letter `D` decodes to no value of this
/// field.
pub proof fn lemma_try_from_absent(s: Seq<char>)
    requires
        forall|i: int| 0 <= i < s.len() ==> s[i] != 'D',
    ensures
        PixelDepth::spec_try_from(s) == Err::<PixelDepth, Error>(Error::InvalidVariant),
{
    reveal_strlit("8D");
    reveal_strlit("1D");
    lemma_not_contains_missing_char(s, "8D"@, 1);
    lemma_not_contains_missing_char(s, "1D"@, 1);
}

} // verus!
