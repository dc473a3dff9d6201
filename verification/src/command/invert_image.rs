//! The image ship invert image field.

use vstd::prelude::*;

use crate::result::Error;
use crate::text::contains_seq;
use crate::text::lemma_contains_self;
use crate::text::lemma_not_contains_missing_char;
use crate::text::lemma_not_contains_same_len;
use crate::text::str_contains;

verus! {

/// Sets the image ship invert image.
#[derive(Clone, Copy, Debug, Eq, PartialEq)]
pub enum InvertImage {
    /// Invert around the X-axis.
    X,
    /// Invert around the Y-axis.
    Y,
}

impl InvertImage {
    /// The fixed ASCII token for this variant.
    pub open spec fn spec_command(self) -> Seq<char> {
        match self {
            InvertImage::X => "1ix"@,
            InvertImage::Y => "1iy"@,
        }
    }

    /// Decoding a fragment yields the first variant, in declared order,
    /// whose token the fragment contains.
    pub open spec fn spec_try_from(s: Seq<char>) -> Result<InvertImage, Error> {
        if contains_seq(s, "1ix"@) {
            Ok(InvertImage::X)
        } else if contains_seq(s, "1iy"@) {
            Ok(InvertImage::Y)
        } else {
            Err(Error::InvalidVariant)
        }
    }

    /// Creates a new [InvertImage].
    pub fn new() -> (r: Self)
        ensures
            r == InvertImage::X,
    {
        Self::X
    }

    /// Gets the ASCII serial command code for [InvertImage].
    pub fn command(&self) -> (r: &'static str)
        ensures
            r@ == self.spec_command(),
    {
        match self {
            Self::X => "1ix",
            Self::Y => "1iy",
        }
    }

    /// Decodes a [InvertImage] from a fragment containing one of its tokens.
    pub fn try_from(val: &str) -> (r: Result<Self, Error>)
        ensures
            r == InvertImage::spec_try_from(val@),
    {
        if str_contains(val, "1ix") {
            Ok(Self::X)
        } else if str_contains(val, "1iy") {
            Ok(Self::Y)
        } else {
            Err(Error::InvalidVariant)
        }
    }
}

impl Default for InvertImage {
    fn default() -> (r: Self)
        ensures
            r == InvertImage::X,
    {
        Self::new()
    }
}

/// Round trip: decoding an encoded variant yields that variant.
pub proof fn lemma_round_trip(v: InvertImage)
    ensures
        InvertImage::spec_try_from(v.spec_command()) == Ok::<InvertImage, Error>(v),
{
    reveal_strlit("1ix");
    reveal_strlit("1iy");
    lemma_contains_self(v.spec_command());
    match v {
        InvertImage::X => {
        },
        InvertImage::Y => {
            lemma_not_contains_same_len("1iy"@, "1ix"@, 2);
        },
    }
}

/// Every character of an encoded fragment of this field is one of its
/// tokens' characters: any other character does not occur.
pub proof fn lemma_command_chars(v: InvertImage, c: char)
    requires
        c != '1',
        c != 'i',
        c != 'x',
        c != 'y',
    ensures
        forall|i: int| 0 <= i < v.spec_command().len() ==> v.spec_command()[i] != c,
{
    reveal_strlit("1ix");
    reveal_strlit("1iy");
    match v {
        InvertImage::X => {
            assert(forall|i: int| 0 <= i < "1ix"@.len() ==> "1ix"@[i] != c);
        },
        InvertImage::Y => {
            assert(forall|i: int| 0 <= i < "1iy"@.len() ==> "1iy"@[i] != c);
        },
    }
}

/// A fragment without the letters `x` and `y` decodes to no value of this
/// field.
pub proof fn lemma_try_from_absent(s: Seq<char>)
    requires
        forall|i: int| 0 <= i < s.len() ==> s[i] != 'x',
        forall|i: int| 0 <= i < s.len() ==> s[i] != 'y',
    ensures
        InvertImage::spec_try_from(s) == Err::<InvertImage, Error>(Error::InvalidVariant),
{
    reveal_strlit("1ix");
    reveal_strlit("1iy");
    lemma_not_contains_missing_char(s, "1ix"@, 2);
    lemma_not_contains_missing_char(s, "1iy"@, 2);
}

} // verus!
