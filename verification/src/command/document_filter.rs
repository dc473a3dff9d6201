//! The image ship document filter field.

use vstd::prelude::*;

use crate::result::Error;
use crate::text::dec_digits;
use crate::text::lemma_find_char_absent;
use crate::text::lemma_parse_bounded_of_rendered;
use crate::text::parse_bounded;
use crate::text::render_u32;
use crate::text::scan_u32;
use crate::text::DelimiterKind;

verus! {

/// Represents the image ship document filter.
#[derive(Clone, Copy, Debug, Eq, PartialEq)]
pub struct DocumentFilter {
    /// The filter threshold; every byte value is valid.
    pub threshold: u8,
}

impl DocumentFilter {
    /// The ASCII fragment: the decimal threshold followed by `U`.
    pub open spec fn spec_command(self) -> Seq<char> {
        dec_digits(self.threshold as nat) + seq!['U']
    }

    /// String decoding: the digits before the first `U` (back to the
    /// nearest delimiter) parsed and range-checked.  Any failure reports
    /// `InvalidVariant`.
    pub open spec fn spec_parse(s: Seq<char>) -> Result<DocumentFilter, Error> {
        match parse_bounded(s, 'U', DelimiterKind::Letter, 0, 255) {
            Some(n) => Ok(DocumentFilter { threshold: n as u8 }),
            None => Err(Error::InvalidVariant),
        }
    }

    /// Creates a new [DocumentFilter] with the default threshold.
    pub fn new() -> (r: Self)
        ensures
            r == (DocumentFilter { threshold: 0 }),
    {
        Self { threshold: 0 }
    }

    /// Gets the [DocumentFilter] threshold setting.
    pub fn threshold(&self) -> (r: u8)
        ensures
            r == self.threshold,
    {
        self.threshold
    }

    /// Creates a [DocumentFilter] from a threshold parameter.
    pub fn from_threshold(threshold: u8) -> (r: Self)
        ensures
            r == (DocumentFilter { threshold }),
    {
        Self { threshold }
    }

    /// Gets the ASCII serial command code for [DocumentFilter].
    pub fn command(&self) -> (r: String)
        ensures
            r@ == self.spec_command(),
    {
        let mut out = render_u32(self.threshold as u32);
        out.append("U");
        proof {
            reveal_strlit("U");
            assert(out@ =~= self.spec_command());
        }
        out
    }

    /// Decodes a [DocumentFilter] from a fragment.
    pub fn try_from(val: &str) -> (r: Result<Self, Error>)
        ensures
            r == DocumentFilter::spec_parse(val@),
    {
        match scan_u32(val, 'U', DelimiterKind::Letter, 255) {
            Some(n) => Ok(Self { threshold: n as u8 }),
            None => Err(Error::InvalidVariant),
        }
    }
}

impl Default for DocumentFilter {
    fn default() -> (r: Self)
        ensures
            r == (DocumentFilter { threshold: 0 }),
    {
        Self::new()
    }
}

impl From<u8> for DocumentFilter {
    fn from(val: u8) -> (r: Self) {
        Self::from_threshold(val)
    }
}

impl vstd::std_specs::convert::FromSpecImpl<u8> for DocumentFilter {
    open spec fn obeys_from_spec() -> bool {
        true
    }

    open spec fn from_spec(v: u8) -> Self {
        DocumentFilter { threshold: v }
    }
}

/// Round trip: decoding the encoding of a valid value yields that value.
pub proof fn lemma_round_trip(v: DocumentFilter)
    ensures
        DocumentFilter::spec_parse(v.spec_command()) == Ok::<DocumentFilter, Error>(v),
{
    lemma_parse_bounded_of_rendered(v.threshold as nat, 'U', DelimiterKind::Letter, 0, 255);
}

/// A fragment without the letter `U` decodes to no value of this field.
pub proof fn lemma_try_from_absent(s: Seq<char>)
    requires
        forall|i: int| 0 <= i < s.len() ==> s[i] != 'U',
    ensures
        DocumentFilter::spec_parse(s) == Err::<DocumentFilter, Error>(Error::InvalidVariant),
{
    lemma_find_char_absent(s, 'U');
}

} // verus!
