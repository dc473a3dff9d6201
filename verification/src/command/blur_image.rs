//! The image ship blur image field.

use vstd::prelude::*;

use crate::result::Error;
use crate::text::contains_seq;
use crate::text::lemma_contains_self;
use crate::text::lemma_not_contains_missing_char;
use crate::text::lemma_not_contains_same_len;
use crate::text::str_contains;

verus! {

/// Sets the image ship blur image.
#[derive(Clone, Copy, Debug, Eq, PartialEq)]
pub enum BlurImage {
    /// Blur image off.
    Off,
    /// Blur image on.
    On,
}

impl BlurImage {
    /// The fixed ASCII token for this variant.
    pub open spec fn spec_command(self) -> Seq<char> {
        match self {
            BlurImage::Off => "0V"@,
            BlurImage::On => "1V"@,
        }
    }

    /// Decoding a fragment yields the first variant, in declared order,
    /// whose token the fragment contains.
    pub open spec fn spec_try_from(s: Seq<char>) -> Result<BlurImage, Error> {
        if contains_seq(s, "0V"@) {
            Ok(BlurImage::Off)
        } else if contains_seq(s, "1V"@) {
            Ok(BlurImage::On)
        } else {
            Err(Error::InvalidVariant)
        }
    }

    /// Creates a new [BlurImage].
    pub fn new() -> (r: Self)
        ensures
            r == BlurImage::Off,
    {
        Self::Off
    }

    /// Gets the ASCII serial command code for [BlurImage].
    pub fn command(&self) -> (r: &'static str)
        ensures
            r@ == self.spec_command(),
    {
        match self {
            Self::Off => "0V",
            Self::On => "1V",
        }
    }

    /// Decodes a [BlurImage] from a fragment containing one of its tokens.
    pub fn try_from(val: &str) -> (r: Result<Self, Error>)
        ensures
            r == BlurImage::spec_try_from(val@),
    {
        if str_contains(val, "0V") {
            Ok(Self::Off)
        } else if str_contains(val, "1V") {
            Ok(Self::On)
        } else {
            Err(Error::InvalidVariant)
        }
    }
}

impl Default for BlurImage {
    fn default() -> (r: Self)
        ensures
            r == BlurImage::Off,
    {
        Self::new()
    }
}

/// Round trip: decoding an encoded variant yields that variant.
pub proof fn lemma_round_trip(v: BlurImage)
    ensures
        BlurImage::spec_try_from(v.spec_command()) == Ok::<BlurImage, Error>(v),
{
    reveal_strlit("0V");
    reveal_strlit("1V");
    lemma_contains_self(v.spec_command());
    match v {
        BlurImage::Off => {
        },
        BlurImage::On => {
            lemma_not_contains_same_len("1V"@, "0V"@, 0);
        },
    }
}

/// Every character of an encoded fragment of this field is one of its
/// tokens' characters: any other character does not occur.
pub proof fn lemma_command_chars(v: BlurImage, c: char)
    requires
        c != '0',
        c != '1',
        c != 'V',
    ensures
        forall|i: int| 0 <= i < v.spec_command().len() ==> v.spec_command()[i] != c,
{
    reveal_strlit("0V");
    reveal_strlit("1V");
    match v {
        BlurImage::Off => {
            assert(forall|i: int| 0 <= i < "0V"@.len() ==> "0V"@[i] != c);
        },
        BlurImage::On => {
            assert(forall|i: int| 0 <= i < "1V"@.len() ==> "1V"@[i] != c);
        },
    }
}

/// A fragment without the letter `V` decodes to no value of this
/// field.
pub proof fn lemma_try_from_absent(s: Seq<char>)
    requires
        forall|i: int| 0 <= i < s.len() ==> s[i] != 'V',
    ensures
        BlurImage::spec_try_from(s) == Err::<BlurImage, Error>(Error::InvalidVariant),
{
    reveal_strlit("0V");
    reveal_strlit("1V");
    lemma_not_contains_missing_char(s, "0V"@, 1);
    lemma_not_contains_missing_char(s, "1V"@, 1);
}

} // verus!
