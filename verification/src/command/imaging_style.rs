//! The image snap imaging style field.

use vstd::prelude::*;

use crate::result::Error;
use crate::text::contains_seq;
use crate::text::lemma_contains_self;
use crate::text::lemma_not_contains_missing_char;
use crate::text::lemma_not_contains_same_len;
use crate::text::str_contains;

verus! {

/// Sets the image snap style.
#[derive(Clone, Copy, Debug, Eq, PartialEq)]
pub enum ImagingStyle {
    /// Allows a few frames of exposure before taking the photo.
    Decoding,
    /// Mimics a digital camera.
    Photo,
    /// Advanced style: set up the scanner freely and control exposure manually.
    Manual,
}

impl ImagingStyle {
    /// The fixed ASCII token for this variant.
    pub open spec fn spec_command(self) -> Seq<char> {
        match self {
            ImagingStyle::Decoding => "0P"@,
            ImagingStyle::Photo => "1P"@,
            ImagingStyle::Manual => "2P"@,
        }
    }

    /// Decoding a fragment yields the first variant, in declared order,
    /// whose token the fragment contains.
    pub open spec fn spec_try_from(s: Seq<char>) -> Result<ImagingStyle, Error> {
        if contains_seq(s, "0P"@) {
            Ok(ImagingStyle::Decoding)
        } else if contains_seq(s, "1P"@) {
            Ok(ImagingStyle::Photo)
        } else if contains_seq(s, "2P"@) {
            Ok(ImagingStyle::Manual)
        } else {
            Err(Error::InvalidVariant)
        }
    }

    /// Creates a new [ImagingStyle].
    pub fn new() -> (r: Self)
        ensures
            r == ImagingStyle::Photo,
    {
        Self::Photo
    }

    /// Gets the ASCII serial command code for [ImagingStyle].
    pub fn command(&self) -> (r: &'static str)
        ensures
            r@ == self.spec_command(),
    {
        match self {
            Self::Decoding => "0P",
            Self::Photo => "1P",
            Self::Manual => "2P",
        }
    }

    /// Decodes a [ImagingStyle] from a fragment containing one of its tokens.
    pub fn try_from(val: &str) -> (r: Result<Self, Error>)
        ensures
            r == ImagingStyle::spec_try_from(val@),
    {
        if str_contains(val, "0P") {
            Ok(Self::Decoding)
        } else if str_contains(val, "1P") {
            Ok(Self::Photo)
        } else if str_contains(val, "2P") {
            Ok(Self::Manual)
        } else {
            Err(Error::InvalidVariant)
        }
    }
}

impl Default for ImagingStyle {
    fn default() -> (r: Self)
        ensures
            r == ImagingStyle::Photo,
    {
        Self::new()
    }
}

/// Round trip: decoding an encoded variant yields that variant.
pub proof fn lemma_round_trip(v: ImagingStyle)
    ensures
        ImagingStyle::spec_try_from(v.spec_command()) == Ok::<ImagingStyle, Error>(v),
{
    reveal_strlit("0P");
    reveal_strlit("1P");
    reveal_strlit("2P");
    lemma_contains_self(v.spec_command());
    match v {
        ImagingStyle::Decoding => {
        },
        ImagingStyle::Photo => {
            lemma_not_contains_same_len("1P"@, "0P"@, 0);
        },
        ImagingStyle::Manual => {
            lemma_not_contains_same_len("2P"@, "0P"@, 0);
            lemma_not_contains_same_len("2P"@, "1P"@, 0);
        },
    }
}

/// Every character of an encoded fragment of this field is one of its
/// tokens' characters: any other character does not occur.
pub proof fn lemma_command_chars(v: ImagingStyle, c: char)
    requires
        c != '0',
        c != '1',
        c != '2',
        c != 'P',
    ensures
        forall|i: int| 0 <= i < v.spec_command().len() ==> v.spec_command()[i] != c,
{
    reveal_strlit("0P");
    reveal_strlit("1P");
    reveal_strlit("2P");
    match v {
        ImagingStyle::Decoding => {
            assert(forall|i: int| 0 <= i < "0P"@.len() ==> "0P"@[i] != c);
        },
        ImagingStyle::Photo => {
            assert(forall|i: int| 0 <= i < "1P"@.len() ==> "1P"@[i] != c);
        },
        ImagingStyle::Manual => {
            assert(forall|i: int| 0 <= i < "2P"@.len() ==> "2P"@[i] != c);
        },
    }
}

/// A fragment without the letter `P` decodes to no value of this
/// field.
pub proof fn lemma_try_from_absent(s: Seq<char>)
    requires
        forall|i: int| 0 <= i < s.len() ==> s[i] != 'P',
    ensures
        ImagingStyle::spec_try_from(s) == Err::<ImagingStyle, Error>(Error::InvalidVariant),
{
    reveal_strlit("0P");
    reveal_strlit("1P");
    reveal_strlit("2P");
    lemma_not_contains_missing_char(s, "0P"@, 1);
    lemma_not_contains_missing_char(s, "1P"@, 1);
    lemma_not_contains_missing_char(s, "2P"@, 1);
}

} // verus!
