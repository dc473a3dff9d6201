//! The image snap update tries field.

use vstd::prelude::*;

use crate::result::Error;
use crate::text::dec_digits;
use crate::text::lemma_find_char_absent;
use crate::text::lemma_parse_bounded_of_rendered;
use crate::text::parse_bounded;
use crate::text::render_u32;
use crate::text::scan_u32;
use crate::text::DelimiterKind;

verus! {

/// Represents the image snap update tries.
#[derive(Clone, Copy, Debug, Eq, PartialEq)]
pub struct UpdateTries {
    /// The number of tries, valid in `0..=10`.
    pub tries: u8,
}

impl UpdateTries {
    /// The tries lies in the valid range `0..=10`.
    pub open spec fn wf(self) -> bool {
        self.tries <= 10
    }

    /// The ASCII fragment: the decimal tries followed by `U`.
    pub open spec fn spec_command(self) -> Seq<char> {
        dec_digits(self.tries as nat) + seq!['U']
    }

    /// String decoding: the digits before the first `U` (back to the
    /// nearest delimiter) parsed and range-checked.  Any failure reports
    /// `InvalidVariant`.
    pub open spec fn spec_parse(s: Seq<char>) -> Result<UpdateTries, Error> {
        match parse_bounded(s, 'U', DelimiterKind::UppercaseOrPercent, 0, 10) {
            Some(n) => Ok(UpdateTries { tries: n as u8 }),
            None => Err(Error::InvalidVariant),
        }
    }

    /// Creates a new [UpdateTries] with the default tries.
    pub fn new() -> (r: Self)
        ensures
            r == (UpdateTries { tries: 6 }),
            r.wf(),
    {
        Self { tries: 6 }
    }

    /// Gets the [UpdateTries] tries setting.
    pub fn tries(&self) -> (r: u8)
        ensures
            r == self.tries,
    {
        self.tries
    }

    /// Creates an [UpdateTries] from a tries parameter: succeeds exactly
    /// on `0..=10`, and rejects any other value as `InvalidValue` carrying
    /// the offending count.
    pub fn try_from_tries(tries: u8) -> (r: Result<Self, Error>)
        ensures
            r == if tries <= 10 {
                Ok::<UpdateTries, Error>(UpdateTries { tries })
            } else {
                Err::<UpdateTries, Error>(Error::InvalidValue(tries as usize))
            },
            r is Ok ==> r->Ok_0.wf(),
    {
        if tries <= 10 {
            Ok(Self { tries })
        } else {
            Err(Error::InvalidValue(tries as usize))
        }
    }

    /// Gets the ASCII serial command code for [UpdateTries].
    pub fn command(&self) -> (r: String)
        ensures
            r@ == self.spec_command(),
    {
        let mut out = render_u32(self.tries as u32);
        out.append("U");
        proof {
            reveal_strlit("U");
            assert(out@ =~= self.spec_command());
        }
        out
    }

    /// Decodes a [UpdateTries] from a fragment.
    pub fn try_from(val: &str) -> (r: Result<Self, Error>)
        ensures
            r == UpdateTries::spec_parse(val@),
    {
        match scan_u32(val, 'U', DelimiterKind::UppercaseOrPercent, 10) {
            Some(n) => Ok(Self { tries: n as u8 }),
            None => Err(Error::InvalidVariant),
        }
    }
}

impl Default for UpdateTries {
    fn default() -> (r: Self)
        ensures
            r == (UpdateTries { tries: 6 }),
    {
        Self::new()
    }
}

/// Round trip: decoding the encoding of a valid value yields that value.
pub proof fn lemma_round_trip(v: UpdateTries)
    requires
        v.wf(),
    ensures
        UpdateTries::spec_parse(v.spec_command()) == Ok::<UpdateTries, Error>(v),
{
    lemma_parse_bounded_of_rendered(v.tries as nat, 'U', DelimiterKind::UppercaseOrPercent, 0, 10);
}

/// A fragment without the letter `U` decodes to no value of this field.
pub proof fn lemma_try_from_absent(s: Seq<char>)
    requires
        forall|i: int| 0 <= i < s.len() ==> s[i] != 'U',
    ensures
        UpdateTries::spec_parse(s) == Err::<UpdateTries, Error>(Error::InvalidVariant),
{
    lemma_find_char_absent(s, 'U');
}

} // verus!
