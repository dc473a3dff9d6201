//! The image ship compensation field.

use vstd::prelude::*;

use crate::result::Error;
use crate::text::contains_seq;
use crate::text::lemma_contains_self;
use crate::text::lemma_not_contains_missing_char;
use crate::text::lemma_not_contains_same_len;
use crate::text::str_contains;

verus! {

/// Sets the image ship compensation.
#[derive(Clone, Copy, Debug, Eq, PartialEq)]
pub enum Compensation {
    /// Compensation disabled.
    Disabled,
    /// Compensation enabled.
    Enabled,
}

impl Compensation {
    /// The fixed ASCII token for this variant.
    pub open spec fn spec_command(self) -> Seq<char> {
        match self {
            Compensation::Disabled => "0C"@,
            Compensation::Enabled => "1C"@,
        }
    }

    /// Decoding a fragment yields the first variant, in declared order,
    /// whose token the fragment contains.
    pub open spec fn spec_try_from(s: Seq<char>) -> Result<Compensation, Error> {
        if contains_seq(s, "0C"@) {
            Ok(Compensation::Disabled)
        } else if contains_seq(s, "1C"@) {
            Ok(Compensation::Enabled)
        } else {
            Err(Error::InvalidVariant)
        }
    }

    /// Creates a new [Compensation].
    pub fn new() -> (r: Self)
        ensures
            r == Compensation::Disabled,
    {
        Self::Disabled
    }

    /// Gets the ASCII serial command code for [Compensation].
    pub fn command(&self) -> (r: &'static str)
        ensures
            r@ == self.spec_command(),
    {
        match self {
            Self::Disabled => "0C",
            Self::Enabled => "1C",
        }
    }

    /// Decodes a [Compensation] from a fragment containing one of its tokens.
    pub fn try_from(val: &str) -> (r: Result<Self, Error>)
        ensures
            r == Compensation::spec_try_from(val@),
    {
        if str_contains(val, "0C") {
            Ok(Self::Disabled)
        } else if str_contains(val, "1C") {
            Ok(Self::Enabled)
        } else {
            Err(Error::InvalidVariant)
        }
    }
}

impl Default for Compensation {
    fn default() -> (r: Self)
        ensures
            r == Compensation::Disabled,
    {
        Self::new()
    }
}

/// Round trip: decoding an encoded variant yields that variant.
pub proof fn lemma_round_trip(v: Compensation)
    ensures
        Compensation::spec_try_from(v.spec_command()) == Ok::<Compensation, Error>(v),
{
    reveal_strlit("0C");
    reveal_strlit("1C");
    lemma_contains_self(v.spec_command());
    match v {
        Compensation::Disabled => {
        },
        Compensation::Enabled => {
            lemma_not_contains_same_len("1C"@, "0C"@, 0);
        },
    }
}

/// Every character of an encoded fragment of this field is one of its
/// tokens' characters: any other character does not occur.
pub proof fn lemma_command_chars(v: Compensation, c: char)
    requires
        c != '0',
        c != '1',
        c != 'C',
    ensures
        forall|i: int| 0 <= i < v.spec_command().len() ==> v.spec_command()[i] != c,
{
    reveal_strlit("0C");
    reveal_strlit("1C");
    match v {
        Compensation::Disabled => {
            assert(forall|i: int| 0 <= i < "0C"@.len() ==> "0C"@[i] != c);
        },
        Compensation::Enabled => {
            assert(forall|i: int| 0 <= i < "1C"@.len() ==> "1C"@[i] != c);
        },
    }
}

/// A fragment without the letter `C` decodes to no value of this
/// field.
pub proof fn lemma_try_from_absent(s: Seq<char>)
    requires
        forall|i: int| 0 <= i < s.len() ==> s[i] != 'C',
    ensures
        Compensation::spec_try_from(s) == Err::<Compensation, Error>(Error::InvalidVariant),
{
    reveal_strlit("0C");
    reveal_strlit("1C");
    lemma_not_contains_missing_char(s, "0C"@, 1);
    lemma_not_contains_missing_char(s, "1C"@, 1);
}

} // verus!
