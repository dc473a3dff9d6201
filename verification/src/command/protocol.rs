//! The image ship protocol field.

use vstd::prelude::*;

use crate::result::Error;
use crate::text::contains_seq;
use crate::text::lemma_contains_self;
use crate::text::lemma_not_contains_missing_char;
use crate::text::lemma_not_contains_same_len;
use crate::text::str_contains;

verus! {

/// Sets the image ship protocol.
#[derive(Clone, Copy, Debug, Eq, PartialEq)]
pub enum Protocol {
    /// Protocol none, raw data.
    Raw,
    /// Protocol none, USB default.
    Usb,
    /// Protocol HMODEM compressed, RS232 default.
    HmodemCompressed,
    /// Protocol HMODEM.
    Hmodem,
}

impl Protocol {
    /// The fixed ASCII token for this variant.
    pub open spec fn spec_command(self) -> Seq<char> {
        match self {
            Protocol::Raw => "0P"@,
            Protocol::Usb => "2P"@,
            Protocol::HmodemCompressed => "3P"@,
            Protocol::Hmodem => "4P"@,
        }
    }

    /// Decoding a fragment yields the first variant, in declared order,
    /// whose token the fragment contains.
    pub open spec fn spec_try_from(s: Seq<char>) -> Result<Protocol, Error> {
        if contains_seq(s, "0P"@) {
            Ok(Protocol::Raw)
        } else if contains_seq(s, "2P"@) {
            Ok(Protocol::Usb)
        } else if contains_seq(s, "3P"@) {
            Ok(Protocol::HmodemCompressed)
        } else if contains_seq(s, "4P"@) {
            Ok(Protocol::Hmodem)
        } else {
            Err(Error::InvalidVariant)
        }
    }

    /// Creates a new [Protocol].
    pub fn new() -> (r: Self)
        ensures
            r == Protocol::Raw,
    {
        Self::Raw
    }

    /// Gets the ASCII serial command code for [Protocol].
    pub fn command(&self) -> (r: &'static str)
        ensures
            r@ == self.spec_command(),
    {
        match self {
            Self::Raw => "0P",
            Self::Usb => "2P",
            Self::HmodemCompressed => "3P",
            Self::Hmodem => "4P",
        }
    }

    /// Decodes a [Protocol] from a fragment containing one of its tokens.
    pub fn try_from(val: &str) -> (r: Result<Self, Error>)
        ensures
            r == Protocol::spec_try_from(val@),
    {
        if str_contains(val, "0P") {
            Ok(Self::Raw)
        } else if str_contains(val, "2P") {
            Ok(Self::Usb)
        } else if str_contains(val, "3P") {
            Ok(Self::HmodemCompressed)
        } else if str_contains(val, "4P") {
            Ok(Self::Hmodem)
        } else {
            Err(Error::InvalidVariant)
        }
    }
}

impl Default for Protocol {
    fn default() -> (r: Self)
        ensures
            r == Protocol::Raw,
    {
        Self::new()
    }
}

/// Round trip: decoding an encoded variant yields that variant.
pub proof fn lemma_round_trip(v: Protocol)
    ensures
        Protocol::spec_try_from(v.spec_command()) == Ok::<Protocol, Error>(v),
{
    reveal_strlit("0P");
    reveal_strlit("2P");
    reveal_strlit("3P");
    reveal_strlit("4P");
    lemma_contains_self(v.spec_command());
    match v {
        Protocol::Raw => {
        },
        Protocol::Usb => {
            lemma_not_contains_same_len("2P"@, "0P"@, 0);
        },
        Protocol::HmodemCompressed => {
            lemma_not_contains_same_len("3P"@, "0P"@, 0);
            lemma_not_contains_same_len("3P"@, "2P"@, 0);
        },
        Protocol::Hmodem => {
            lemma_not_contains_same_len("4P"@, "0P"@, 0);
            lemma_not_contains_same_len("4P"@, "2P"@, 0);
            lemma_not_contains_same_len("4P"@, "3P"@, 0);
        },
    }
}

/// Every character of an encoded fragment of this field is one of its
/// tokens' characters: any other character does not occur.
pub proof fn lemma_command_chars(v: Protocol, c: char)
    requires
        c != '0',
        c != '2',
        c != '3',
        c != '4',
        c != 'P',
    ensures
        forall|i: int| 0 <= i < v.spec_command().len() ==> v.spec_command()[i] != c,
{
    reveal_strlit("0P");
    reveal_strlit("2P");
    reveal_strlit("3P");
    reveal_strlit("4P");
    match v {
        Protocol::Raw => {
            assert(forall|i: int| 0 <= i < "0P"@.len() ==> "0P"@[i] != c);
        },
        Protocol::Usb => {
            assert(forall|i: int| 0 <= i < "2P"@.len() ==> "2P"@[i] != c);
        },
        Protocol::HmodemCompressed => {
            assert(forall|i: int| 0 <= i < "3P"@.len() ==> "3P"@[i] != c);
        },
        Protocol::Hmodem => {
            assert(forall|i: int| 0 <= i < "4P"@.len() ==> "4P"@[i] != c);
        },
    }
}

/// A fragment without the letter `P` decodes to no value of this
/// field.
pub proof fn lemma_try_from_absent(s: Seq<char>)
    requires
        forall|i: int| 0 <= i < s.len() ==> s[i] != 'P',
    ensures
        Protocol::spec_try_from(s) == Err::<Protocol, Error>(Error::InvalidVariant),
{
    reveal_strlit("0P");
    reveal_strlit("2P");
    reveal_strlit("3P");
    reveal_strlit("4P");
    lemma_not_contains_missing_char(s, "0P"@, 1);
    lemma_not_contains_missing_char(s, "2P"@, 1);
    lemma_not_contains_missing_char(s, "3P"@, 1);
    lemma_not_contains_missing_char(s, "4P"@, 1);
}

} // verus!
