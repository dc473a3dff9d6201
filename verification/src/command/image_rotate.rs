//! The image ship image rotate field.

use vstd::prelude::*;

use crate::result::Error;
use crate::text::contains_seq;
use crate::text::lemma_contains_self;
use crate::text::lemma_not_contains_missing_char;
use crate::text::lemma_not_contains_same_len;
use crate::text::str_contains;

verus! {

/// Sets the image ship image rotate.
#[derive(Clone, Copy, Debug, Eq, PartialEq)]
pub enum ImageRotate {
    /// Rotate 0 degrees (image as snapped).
    Degrees0,
    /// Rotate 90 degrees to the right.
    Degrees90,
    /// Rotate 180 degrees.
    Degrees180,
    /// Rotate 270 degrees to the right (90 degrees left).
    Degrees270,
}

impl ImageRotate {
    /// The fixed ASCII token for this variant.
    pub open spec fn spec_command(self) -> Seq<char> {
        match self {
            ImageRotate::Degrees0 => "0ir"@,
            ImageRotate::Degrees90 => "1ir"@,
            ImageRotate::Degrees180 => "2ir"@,
            ImageRotate::Degrees270 => "3ir"@,
        }
    }

    /// Decoding a fragment yields the first variant, in declared order,
    /// whose token the fragment contains.
    pub open spec fn spec_try_from(s: Seq<char>) -> Result<ImageRotate, Error> {
        if contains_seq(s, "0ir"@) {
            Ok(ImageRotate::Degrees0)
        } else if contains_seq(s, "1ir"@) {
            Ok(ImageRotate::Degrees90)
        } else if contains_seq(s, "2ir"@) {
            Ok(ImageRotate::Degrees180)
        } else if contains_seq(s, "3ir"@) {
            Ok(ImageRotate::Degrees270)
        } else {
            Err(Error::InvalidVariant)
        }
    }

    /// Creates a new [ImageRotate].
    pub fn new() -> (r: Self)
        ensures
            r == ImageRotate::Degrees0,
    {
        Self::Degrees0
    }

    /// Gets the ASCII serial command code for [ImageRotate].
    pub fn command(&self) -> (r: &'static str)
        ensures
            r@ == self.spec_command(),
    {
        match self {
            Self::Degrees0 => "0ir",
            Self::Degrees90 => "1ir",
            Self::Degrees180 => "2ir",
            Self::Degrees270 => "3ir",
        }
    }

    /// Decodes a [ImageRotate] from a fragment containing one of its tokens.
    pub fn try_from(val: &str) -> (r: Result<Self, Error>)
        ensures
            r == ImageRotate::spec_try_from(val@),
    {
        if str_contains(val, "0ir") {
            Ok(Self::Degrees0)
        } else if str_contains(val, "1ir") {
            Ok(Self::Degrees90)
        } else if str_contains(val, "2ir") {
            Ok(Self::Degrees180)
        } else if str_contains(val, "3ir") {
            Ok(Self::Degrees270)
        } else {
            Err(Error::InvalidVariant)
        }
    }
}

impl Default for ImageRotate {
    fn default() -> (r: Self)
        ensures
            r == ImageRotate::Degrees0,
    {
        Self::new()
    }
}

/// Round trip: decoding an encoded variant yields that variant.
pub proof fn lemma_round_trip(v: ImageRotate)
    ensures
        ImageRotate::spec_try_from(v.spec_command()) == Ok::<ImageRotate, Error>(v),
{
    reveal_strlit("0ir");
    reveal_strlit("1ir");
    reveal_strlit("2ir");
    reveal_strlit("3ir");
    lemma_contains_self(v.spec_command());
    match v {
        ImageRotate::Degrees0 => {
        },
        ImageRotate::Degrees90 => {
            lemma_not_contains_same_len("1ir"@, "0ir"@, 0);
        },
        ImageRotate::Degrees180 => {
            lemma_not_contains_same_len("2ir"@, "0ir"@, 0);
            lemma_not_contains_same_len("2ir"@, "1ir"@, 0);
        },
        ImageRotate::Degrees270 => {
            lemma_not_contains_same_len("3ir"@, "0ir"@, 0);
            lemma_not_contains_same_len("3ir"@, "1ir"@, 0);
            lemma_not_contains_same_len("3ir"@, "2ir"@, 0);
        },
    }
}

/// Every character of an encoded fragment of this field is one of its
/// tokens' characters: any other character does not occur.
pub proof fn lemma_command_chars(v: ImageRotate, c: char)
    requires
        c != '0',
        c != '1',
        c != '2',
        c != '3',
        c != 'i',
        c != 'r',
    ensures
        forall|i: int| 0 <= i < v.spec_command().len() ==> v.spec_command()[i] != c,
{
    reveal_strlit("0ir");
    reveal_strlit("1ir");
    reveal_strlit("2ir");
    reveal_strlit("3ir");
    match v {
        ImageRotate::Degrees0 => {
            assert(forall|i: int| 0 <= i < "0ir"@.len() ==> "0ir"@[i] != c);
        },
        ImageRotate::Degrees90 => {
            assert(forall|i: int| 0 <= i < "1ir"@.len() ==> "1ir"@[i] != c);
        },
        ImageRotate::Degrees180 => {
            assert(forall|i: int| 0 <= i < "2ir"@.len() ==> "2ir"@[i] != c);
        },
        ImageRotate::Degrees270 => {
            assert(forall|i: int| 0 <= i < "3ir"@.len() ==> "3ir"@[i] != c);
        },
    }
}

/// A fragment without the letter `r` decodes to no value of this
/// field.
pub proof fn lemma_try_from_absent(s: Seq<char>)
    requires
        forall|i: int| 0 <= i < s.len() ==> s[i] != 'r',
    ensures
        ImageRotate::spec_try_from(s) == Err::<ImageRotate, Error>(Error::InvalidVariant),
{
    reveal_strlit("0ir");
    reveal_strlit("1ir");
    reveal_strlit("2ir");
    reveal_strlit("3ir");
    lemma_not_contains_missing_char(s, "0ir"@, 2);
    lemma_not_contains_missing_char(s, "1ir"@, 2);
    lemma_not_contains_missing_char(s, "2ir"@, 2);
    lemma_not_contains_missing_char(s, "3ir"@, 2);
}

} // verus!
