//! The image ship JPEG image quality field.

use vstd::prelude::*;

use crate::result::Error;
use crate::text::dec_digits;
use crate::text::lemma_find_char_absent;
use crate::text::lemma_parse_bounded_of_rendered;
use crate::text::parse_bounded;
use crate::text::render_u32;
use crate::text::scan_u32;
use crate::text::DelimiterKind;

verus! {

/// Represents the image ship JPEG image quality.
#[derive(Clone, Copy, Debug, Eq, PartialEq)]
pub struct JpegImageQuality {
    /// The JPEG quality, valid in `0..=100`.
    pub quality: u8,
}

impl JpegImageQuality {
    /// The quality lies in the valid range `0..=100`.
    pub open spec fn wf(self) -> bool {
        self.quality <= 100
    }

    /// The ASCII fragment: the decimal quality followed by `J`.
    pub open spec fn spec_command(self) -> Seq<char> {
        dec_digits(self.quality as nat) + seq!['J']
    }

    /// String decoding: the digits before the first `J` (back to the
    /// nearest delimiter) parsed and range-checked.  Any failure reports
    /// `InvalidVariant`.
    pub open spec fn spec_parse(s: Seq<char>) -> Result<JpegImageQuality, Error> {
        match parse_bounded(s, 'J', DelimiterKind::Letter, 0, 100) {
            Some(n) => Ok(JpegImageQuality { quality: n as u8 }),
            None => Err(Error::InvalidVariant),
        }
    }

    /// Creates a new [JpegImageQuality] with the default quality.
    pub fn new() -> (r: Self)
        ensures
            r == (JpegImageQuality { quality: 50 }),
            r.wf(),
    {
        Self { quality: 50 }
    }

    /// Gets the [JpegImageQuality] quality setting.
    pub fn quality(&self) -> (r: u8)
        ensures
            r == self.quality,
    {
        self.quality
    }

    /// Creates a [JpegImageQuality] from a quality parameter: succeeds
    /// exactly on `0..=100`, and rejects any other value as `InvalidValue`.
    pub fn try_from_quality(quality: u8) -> (r: Result<Self, Error>)
        ensures
            r == if quality <= 100 {
                Ok::<JpegImageQuality, Error>(JpegImageQuality { quality })
            } else {
                Err::<JpegImageQuality, Error>(Error::InvalidValue(quality as usize))
            },
            r is Ok ==> r->Ok_0.wf(),
    {
        if quality <= 100 {
            Ok(Self { quality })
        } else {
            Err(Error::InvalidValue(quality as usize))
        }
    }

    /// Converts a quality value, as [JpegImageQuality::try_from_quality].
    pub fn try_from(val: u8) -> (r: Result<Self, Error>)
        ensures
            r == if val <= 100 {
                Ok::<JpegImageQuality, Error>(JpegImageQuality { quality: val })
            } else {
                Err::<JpegImageQuality, Error>(Error::InvalidValue(val as usize))
            },
    {
        Self::try_from_quality(val)
    }

    /// Gets the ASCII serial command code for [JpegImageQuality].
    pub fn command(&self) -> (r: String)
        ensures
            r@ == self.spec_command(),
    {
        let mut out = render_u32(self.quality as u32);
        out.append("J");
        proof {
            reveal_strlit("J");
            assert(out@ =~= self.spec_command());
        }
        out
    }

    /// Decodes a [JpegImageQuality] from a fragment.
    pub fn parse(val: &str) -> (r: Result<Self, Error>)
        ensures
            r == JpegImageQuality::spec_parse(val@),
    {
        match scan_u32(val, 'J', DelimiterKind::Letter, 100) {
            Some(n) => Ok(Self { quality: n as u8 }),
            None => Err(Error::InvalidVariant),
        }
    }
}

impl Default for JpegImageQuality {
    fn default() -> (r: Self)
        ensures
            r == (JpegImageQuality { quality: 50 }),
    {
        Self::new()
    }
}

/// Round trip: decoding the encoding of a valid value yields that value.
pub proof fn lemma_round_trip(v: JpegImageQuality)
    requires
        v.wf(),
    ensures
        JpegImageQuality::spec_parse(v.spec_command()) == Ok::<JpegImageQuality, Error>(v),
{
    lemma_parse_bounded_of_rendered(v.quality as nat, 'J', DelimiterKind::Letter, 0, 100);
}

/// A fragment without the letter `J` decodes to no value of this field.
pub proof fn lemma_parse_absent(s: Seq<char>)
    requires
        forall|i: int| 0 <= i < s.len() ==> s[i] != 'J',
    ensures
        JpegImageQuality::spec_parse(s) == Err::<JpegImageQuality, Error>(Error::InvalidVariant),
{
    lemma_find_char_absent(s, 'J');
}

} // verus!
