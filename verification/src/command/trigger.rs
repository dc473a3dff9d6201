//! The trigger activate/deactivate serial command.

use vstd::prelude::*;

use crate::result::Error;
use crate::text::contains_seq;
use crate::text::lemma_contains_self;
use crate::text::lemma_not_contains_same_len;
use crate::text::str_contains;

verus! {

/// Represents the `Trigger` serial command.
#[derive(Clone, Copy, Debug, Eq, PartialEq)]
pub enum Trigger {
    /// `<SYN>T<CR>`: activate the trigger.
    Activate,
    /// `<SYN>U<CR>`: deactivate the trigger.
    Deactivate,
}

impl Trigger {
    /// The fixed ASCII token for this variant.
    pub open spec fn spec_command(self) -> Seq<char> {
        match self {
            Trigger::Activate => "\x16T\x0d"@,
            Trigger::Deactivate => "\x16U\x0d"@,
        }
    }

    /// Decoding a fragment yields the first variant, in declared order,
    /// whose token the fragment contains.
    pub open spec fn spec_try_from(s: Seq<char>) -> Result<Trigger, Error> {
        if contains_seq(s, "\x16T\x0d"@) {
            Ok(Trigger::Activate)
        } else if contains_seq(s, "\x16U\x0d"@) {
            Ok(Trigger::Deactivate)
        } else {
            Err(Error::InvalidVariant)
        }
    }

    /// Creates a new [Trigger].
    pub fn new() -> (r: Self)
        ensures
            r == Trigger::Activate,
    {
        Self::Activate
    }

    /// Gets the ASCII serial command code for [Trigger].
    pub fn command(&self) -> (r: &'static str)
        ensures
            r@ == self.spec_command(),
    {
        match self {
            Self::Activate => "\x16T\x0d",
            Self::Deactivate => "\x16U\x0d",
        }
    }

    /// Decodes a [Trigger] from a fragment containing one of its tokens.
    pub fn try_from(val: &str) -> (r: Result<Self, Error>)
        ensures
            r == Trigger::spec_try_from(val@),
    {
        if str_contains(val, "\x16T\x0d") {
            Ok(Self::Activate)
        } else if str_contains(val, "\x16U\x0d") {
            Ok(Self::Deactivate)
        } else {
            Err(Error::InvalidVariant)
        }
    }
}

impl Default for Trigger {
    fn default() -> (r: Self)
        ensures
            r == Trigger::Activate,
    {
        Self::new()
    }
}

/// Round trip: decoding an encoded variant yields that variant.
pub proof fn lemma_round_trip(v: Trigger)
    ensures
        Trigger::spec_try_from(v.spec_command()) == Ok::<Trigger, Error>(v),
{
    reveal_strlit("\x16T\x0d");
    reveal_strlit("\x16U\x0d");
    lemma_contains_self(v.spec_command());
    match v {
        Trigger::Activate => {
        },
        Trigger::Deactivate => {
            lemma_not_contains_same_len("\x16U\x0d"@, "\x16T\x0d"@, 1);
        },
    }
}

} // verus!
