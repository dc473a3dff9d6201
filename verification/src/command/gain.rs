//! The image snap gain field.

use vstd::prelude::*;

use crate::result::Error;
use crate::text::contains_seq;
use crate::text::lemma_contains_self;
use crate::text::lemma_not_contains_missing_char;
use crate::text::lemma_not_contains_same_len;
use crate::text::str_contains;

verus! {

/// Sets the image snap gain.
#[derive(Clone, Copy, Debug, Eq, PartialEq)]
pub enum Gain {
    /// No gain.
    Off,
    /// Medium gain.
    Medium,
    /// Heavy gain.
    Heavy,
    /// Maximum gain.
    Max,
}

impl Gain {
    /// The fixed ASCII token for this variant.
    pub open spec fn spec_command(self) -> Seq<char> {
        match self {
            Gain::Off => "1G"@,
            Gain::Medium => "2G"@,
            Gain::Heavy => "4G"@,
            Gain::Max => "8G"@,
        }
    }

    /// Decoding a fragment yields the first variant, in declared order,
    /// whose token the fragment contains.
    pub open spec fn spec_try_from(s: Seq<char>) -> Result<Gain, Error> {
        if contains_seq(s, "1G"@) {
            Ok(Gain::Off)
        } else if contains_seq(s, "2G"@) {
            Ok(Gain::Medium)
        } else if contains_seq(s, "4G"@) {
            Ok(Gain::Heavy)
        } else if contains_seq(s, "8G"@) {
            Ok(Gain::Max)
        } else {
            Err(Error::InvalidVariant)
        }
    }

    /// Creates a new [Gain].
    pub fn new() -> (r: Self)
        ensures
            r == Gain::Off,
    {
        Self::Off
    }

    /// Gets the ASCII serial command code for [Gain].
    pub fn command(&self) -> (r: &'static str)
        ensures
            r@ == self.spec_command(),
    {
        match self {
            Self::Off => "1G",
            Self::Medium => "2G",
            Self::Heavy => "4G",
            Self::Max => "8G",
        }
    }

    /// Decodes a [Gain] from a fragment containing one of its tokens.
    pub fn try_from(val: &str) -> (r: Result<Self, Error>)
        ensures
            r == Gain::spec_try_from(val@),
    {
        if str_contains(val, "1G") {
            Ok(Self::Off)
        } else if str_contains(val, "2G") {
            Ok(Self::Medium)
        } else if str_contains(val, "4G") {
            Ok(Self::Heavy)
        } else if str_contains(val, "8G") {
            Ok(Self::Max)
        } else {
            Err(Error::InvalidVariant)
        }
    }
}

impl Default for Gain {
    fn default() -> (r: Self)
        ensures
            r == Gain::Off,
    {
        Self::new()
    }
}

/// Round trip: decoding an encoded variant yields that variant.
pub proof fn lemma_round_trip(v: Gain)
    ensures
        Gain::spec_try_from(v.spec_command()) == Ok::<Gain, Error>(v),
{
    reveal_strlit("1G");
    reveal_strlit("2G");
    reveal_strlit("4G");
    reveal_strlit("8G");
    lemma_contains_self(v.spec_command());
    match v {
        Gain::Off => {
        },
        Gain::Medium => {
            lemma_not_contains_same_len("2G"@, "1G"@, 0);
        },
        Gain::Heavy => {
            lemma_not_contains_same_len("4G"@, "1G"@, 0);
            lemma_not_contains_same_len("4G"@, "2G"@, 0);
        },
        Gain::Max => {
            lemma_not_contains_same_len("8G"@, "1G"@, 0);
            lemma_not_contains_same_len("8G"@, "2G"@, 0);
            lemma_not_contains_same_len("8G"@, "4G"@, 0);
        },
    }
}

/// Every character of an encoded fragment of this field is one of its
/// tokens' characters: any other character does not occur.
pub proof fn lemma_command_chars(v: Gain, c: char)
    requires
        c != '1',
        c != '2',
        c != '4',
        c != '8',
        c != 'G',
    ensures
        forall|i: int| 0 <= i < v.spec_command().len() ==> v.spec_command()[i] != c,
{
    reveal_strlit("1G");
    reveal_strlit("2G");
    reveal_strlit("4G");
    reveal_strlit("8G");
    match v {
        Gain::Off => {
            assert(forall|i: int| 0 <= i < "1G"@.len() ==> "1G"@[i] != c);
        },
        Gain::Medium => {
            assert(forall|i: int| 0 <= i < "2G"@.len() ==> "2G"@[i] != c);
        },
        Gain::Heavy => {
            assert(forall|i: int| 0 <= i < "4G"@.len() ==> "4G"@[i] != c);
        },
        Gain::Max => {
            assert(forall|i: int| 0 <= i < "8G"@.len() ==> "8G"@[i] != c);
        },
    }
}

/// A fragment without the letter `G` decodes to no value of this
/// field.
pub proof fn lemma_try_from_absent(s: Seq<char>)
    requires
        forall|i: int| 0 <= i < s.len() ==> s[i] != 'G',
    ensures
        Gain::spec_try_from(s) == Err::<Gain, Error>(Error::InvalidVariant),
{
    reveal_strlit("1G");
    reveal_strlit("2G");
    reveal_strlit("4G");
    reveal_strlit("8G");
    lemma_not_contains_missing_char(s, "1G"@, 1);
    lemma_not_contains_missing_char(s, "2G"@, 1);
    lemma_not_contains_missing_char(s, "4G"@, 1);
    lemma_not_contains_missing_char(s, "8G"@, 1);
}

} // verus!
