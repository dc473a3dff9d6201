//! The PDF417 symbology serial command.

use vstd::prelude::*;

use crate::result::Error;
use crate::text::contains_seq;
use crate::text::lemma_contains_self;
use crate::text::lemma_not_contains_same_len;
use crate::text::match_at;
use crate::text::str_contains;

verus! {

/// Represents the `PDF417` symbology serial command.
#[derive(Clone, Copy, Debug, Eq, PartialEq)]
pub enum PDF417 {
    /// Restore the default PDF417 settings.
    DefaultSettings,
    /// PDF417 decoding disabled.
    Off,
    /// PDF417 decoding enabled.
    On,
}

impl PDF417 {
    /// The fixed ASCII token for this variant.
    pub open spec fn spec_command(self) -> Seq<char> {
        match self {
            PDF417::DefaultSettings => "PDFDFT"@,
            PDF417::Off => "PDFENA0"@,
            PDF417::On => "PDFENA1"@,
        }
    }

    /// Decoding a fragment yields the first variant, in match order, whose
    /// token the fragment contains.  The enable token is checked before the
    /// disable token.
    pub open spec fn spec_try_from(s: Seq<char>) -> Result<PDF417, Error> {
        if contains_seq(s, "PDFDFT"@) {
            Ok(PDF417::DefaultSettings)
        } else if contains_seq(s, "PDFENA1"@) {
            Ok(PDF417::On)
        } else if contains_seq(s, "PDFENA0"@) {
            Ok(PDF417::Off)
        } else {
            Err(Error::InvalidVariant)
        }
    }

    /// Creates a new [PDF417].
    pub fn new() -> (r: Self)
        ensures
            r == PDF417::On,
    {
        Self::On
    }

    /// Gets the ASCII serial command code for [PDF417].
    pub fn command(&self) -> (r: &'static str)
        ensures
            r@ == self.spec_command(),
    {
        match self {
            Self::DefaultSettings => "PDFDFT",
            Self::Off => "PDFENA0",
            Self::On => "PDFENA1",
        }
    }

    /// Decodes a [PDF417] from a fragment containing one of its tokens.
    pub fn try_from(val: &str) -> (r: Result<Self, Error>)
        ensures
            r == PDF417::spec_try_from(val@),
    {
        if str_contains(val, "PDFDFT") {
            Ok(Self::DefaultSettings)
        } else if str_contains(val, "PDFENA1") {
            Ok(Self::On)
        } else if str_contains(val, "PDFENA0") {
            Ok(Self::Off)
        } else {
            Err(Error::InvalidVariant)
        }
    }
}

impl Default for PDF417 {
    fn default() -> (r: Self)
        ensures
            r == PDF417::On,
    {
        Self::new()
    }
}

/// An enable/disable token (`PDFENA...`) does not contain the default token.
proof fn lemma_ena_excludes_default(s: Seq<char>)
    requires
        s.len() == 7,
        s[1] == 'D',
        s[3] == 'E',
    ensures
        !contains_seq(s, "PDFDFT"@),
{
    reveal_strlit("PDFDFT");
    assert forall|i: int| !match_at(s, "PDFDFT"@, i) by {
        if match_at(s, "PDFDFT"@, i) {
            if i == 0 {
                assert(s[3] == "PDFDFT"@[3]);
            } else {
                assert(s[1int + 0] == "PDFDFT"@[0]);
            }
        }
    }
}

/// Round trip: decoding an encoded variant yields that variant.
pub proof fn lemma_round_trip(v: PDF417)
    ensures
        PDF417::spec_try_from(v.spec_command()) == Ok::<PDF417, Error>(v),
{
    reveal_strlit("PDFDFT");
    reveal_strlit("PDFENA0");
    reveal_strlit("PDFENA1");
    lemma_contains_self(v.spec_command());
    match v {
        PDF417::DefaultSettings => {},
        PDF417::On => {
            lemma_ena_excludes_default("PDFENA1"@);
        },
        PDF417::Off => {
            lemma_ena_excludes_default("PDFENA0"@);
            lemma_not_contains_same_len("PDFENA0"@, "PDFENA1"@, 6);
        },
    }
}

} // verus!
