//! The mobile phone read mode serial command.

use vstd::prelude::*;

use crate::result::Error;
use crate::text::contains_seq;
use crate::text::lemma_contains_self;
use crate::text::lemma_not_contains_same_len;
use crate::text::str_contains;

verus! {

/// Represents the `Mobile Phone Read Mode` serial command.
#[derive(Clone, Copy, Debug, Eq, PartialEq)]
pub enum MobilePhoneReadMode {
    /// Hand-held scanning of mobile phone screens.
    HandheldScanning,
    /// Streaming presentation reading.
    StreamingPresentation,
}

impl MobilePhoneReadMode {
    /// The fixed ASCII token for this variant.
    pub open spec fn spec_command(self) -> Seq<char> {
        match self {
            MobilePhoneReadMode::HandheldScanning => "PAPHHC"@,
            MobilePhoneReadMode::StreamingPresentation => "PAPSPC"@,
        }
    }

    /// Decoding a fragment yields the first variant, in declared order,
    /// whose token the fragment contains.
    pub open spec fn spec_try_from(s: Seq<char>) -> Result<MobilePhoneReadMode, Error> {
        if contains_seq(s, "PAPHHC"@) {
            Ok(MobilePhoneReadMode::HandheldScanning)
        } else if contains_seq(s, "PAPSPC"@) {
            Ok(MobilePhoneReadMode::StreamingPresentation)
        } else {
            Err(Error::InvalidVariant)
        }
    }

    /// Creates a new [MobilePhoneReadMode].
    pub fn new() -> (r: Self)
        ensures
            r == MobilePhoneReadMode::HandheldScanning,
    {
        Self::HandheldScanning
    }

    /// Gets the ASCII serial command code for [MobilePhoneReadMode].
    pub fn command(&self) -> (r: &'static str)
        ensures
            r@ == self.spec_command(),
    {
        match self {
            Self::HandheldScanning => "PAPHHC",
            Self::StreamingPresentation => "PAPSPC",
        }
    }

    /// Decodes a [MobilePhoneReadMode] from a fragment containing one of its tokens.
    pub fn try_from(val: &str) -> (r: Result<Self, Error>)
        ensures
            r == MobilePhoneReadMode::spec_try_from(val@),
    {
        if str_contains(val, "PAPHHC") {
            Ok(Self::HandheldScanning)
        } else if str_contains(val, "PAPSPC") {
            Ok(Self::StreamingPresentation)
        } else {
            Err(Error::InvalidVariant)
        }
    }
}

impl Default for MobilePhoneReadMode {
    fn default() -> (r: Self)
        ensures
            r == MobilePhoneReadMode::HandheldScanning,
    {
        Self::new()
    }
}

/// Round trip: decoding an encoded variant yields that variant.
pub proof fn lemma_round_trip(v: MobilePhoneReadMode)
    ensures
        MobilePhoneReadMode::spec_try_from(v.spec_command()) == Ok::<MobilePhoneReadMode, Error>(v),
{
    reveal_strlit("PAPHHC");
    reveal_strlit("PAPSPC");
    lemma_contains_self(v.spec_command());
    match v {
        MobilePhoneReadMode::HandheldScanning => {
        },
        MobilePhoneReadMode::StreamingPresentation => {
            lemma_not_contains_same_len("PAPSPC"@, "PAPHHC"@, 3);
        },
    }
}

} // verus!
