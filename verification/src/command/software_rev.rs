//! The software revision query serial command.

use vstd::prelude::*;

use crate::result::Error;
use crate::text::contains_seq;
use crate::text::lemma_contains_self;
use crate::text::str_contains;

verus! {

/// Represents the `Software Revision` serial command: a parameterless query.
#[derive(Clone, Copy, Debug, Eq, PartialEq)]
pub struct SoftwareRevision;

impl SoftwareRevision {
    /// The fixed ASCII token of the query.
    pub open spec fn spec_command(self) -> Seq<char> {
        "REVINF"@
    }

    /// Decoding a fragment succeeds exactly when it contains the token.
    pub open spec fn spec_try_from(s: Seq<char>) -> Result<SoftwareRevision, Error> {
        if contains_seq(s, "REVINF"@) {
            Ok(SoftwareRevision)
        } else {
            Err(Error::InvalidVariant)
        }
    }

    /// Creates a new [SoftwareRevision].
    pub fn new() -> (r: Self)
        ensures
            r == SoftwareRevision,
    {
        Self {}
    }

    /// Gets the ASCII serial command code for [SoftwareRevision].
    pub fn command(&self) -> (r: &'static str)
        ensures
            r@ == self.spec_command(),
    {
        "REVINF"
    }

    /// Decodes a [SoftwareRevision] from a fragment containing its token.
    pub fn try_from(val: &str) -> (r: Result<Self, Error>)
        ensures
            r == SoftwareRevision::spec_try_from(val@),
    {
        if str_contains(val, "REVINF") {
            Ok(Self::new())
        } else {
            Err(Error::InvalidVariant)
        }
    }
}

impl Default for SoftwareRevision {
    fn default() -> (r: Self)
        ensures
            r == SoftwareRevision,
    {
        Self::new()
    }
}

/// Round trip: decoding the encoded query yields the query.
pub proof fn lemma_round_trip(v: SoftwareRevision)
    ensures
        SoftwareRevision::spec_try_from(v.spec_command()) == Ok::<SoftwareRevision, Error>(v),
{
    lemma_contains_self(v.spec_command());
}

} // verus!
