//! The manual trigger mode serial command.

use vstd::prelude::*;

use crate::result::Error;
use crate::text::contains_seq;
use crate::text::lemma_contains_self;
use crate::text::lemma_not_contains_same_len;
use crate::text::str_contains;

verus! {

/// Represents the `Manual Trigger Mode` serial command.
#[derive(Clone, Copy, Debug, Eq, PartialEq)]
pub enum ManualTriggerMode {
    /// Normal manual trigger mode.
    Normal,
    /// Enhanced manual trigger mode.
    Enhanced,
}

impl ManualTriggerMode {
    /// The fixed ASCII token for this variant.
    pub open spec fn spec_command(self) -> Seq<char> {
        match self {
            ManualTriggerMode::Normal => "PAPHHF"@,
            ManualTriggerMode::Enhanced => "PAPHHS"@,
        }
    }

    /// Decoding a fragment yields the first variant, in declared order,
    /// whose token the fragment contains.
    pub open spec fn spec_try_from(s: Seq<char>) -> Result<ManualTriggerMode, Error> {
        if contains_seq(s, "PAPHHF"@) {
            Ok(ManualTriggerMode::Normal)
        } else if contains_seq(s, "PAPHHS"@) {
            Ok(ManualTriggerMode::Enhanced)
        } else {
            Err(Error::InvalidVariant)
        }
    }

    /// Creates a new [ManualTriggerMode].
    pub fn new() -> (r: Self)
        ensures
            r == ManualTriggerMode::Normal,
    {
        Self::Normal
    }

    /// Gets the ASCII serial command code for [ManualTriggerMode].
    pub fn command(&self) -> (r: &'static str)
        ensures
            r@ == self.spec_command(),
    {
        match self {
            Self::Normal => "PAPHHF",
            Self::Enhanced => "PAPHHS",
        }
    }

    /// Decodes a [ManualTriggerMode] from a fragment containing one of its tokens.
    pub fn try_from(val: &str) -> (r: Result<Self, Error>)
        ensures
            r == ManualTriggerMode::spec_try_from(val@),
    {
        if str_contains(val, "PAPHHF") {
            Ok(Self::Normal)
        } else if str_contains(val, "PAPHHS") {
            Ok(Self::Enhanced)
        } else {
            Err(Error::InvalidVariant)
        }
    }
}

impl Default for ManualTriggerMode {
    fn default() -> (r: Self)
        ensures
            r == ManualTriggerMode::Normal,
    {
        Self::new()
    }
}

/// Round trip: decoding an encoded variant yields that variant.
pub proof fn lemma_round_trip(v: ManualTriggerMode)
    ensures
        ManualTriggerMode::spec_try_from(v.spec_command()) == Ok::<ManualTriggerMode, Error>(v),
{
    reveal_strlit("PAPHHF");
    reveal_strlit("PAPHHS");
    lemma_contains_self(v.spec_command());
    match v {
        ManualTriggerMode::Normal => {
        },
        ManualTriggerMode::Enhanced => {
            lemma_not_contains_same_len("PAPHHS"@, "PAPHHF"@, 5);
        },
    }
}

} // verus!
