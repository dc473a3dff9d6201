//! The serial trigger mode command: a timeout in milliseconds after the
//! `TRGSTO` prefix.

use vstd::prelude::*;

use crate::result::Error;
use crate::text::dec_digits;
use crate::text::find_sub;
use crate::text::lemma_find_sub_at_zero;
use crate::text::lemma_parse_uint_of_dec_digits;
use crate::text::match_at;
use crate::text::parse_uint;
use crate::text::parse_u32_in;
use crate::text::render_u32;
use crate::text::str_find_sub;

verus! {

/// Maximum timeout (in milliseconds) for [SerialTriggerMode].
pub const MAX_SERIAL_TRIGGER: u32 = 300_000;

/// Represents the `Serial Trigger Mode` serial command.
#[derive(Clone, Copy, Debug, Eq, PartialEq)]
pub struct SerialTriggerMode {
    /// The timeout in milliseconds.
    pub ms: u32,
}

impl SerialTriggerMode {
    /// The ASCII command: the `TRGSTO` prefix followed by the decimal
    /// timeout.
    pub open spec fn spec_command(self) -> Seq<char> {
        "TRGSTO"@ + dec_digits(self.ms as nat)
    }

    /// String decoding: everything after the first occurrence of the
    /// `TRGSTO` prefix is parsed as the decimal timeout.  No range check is
    /// applied beyond the timeout fitting in 32 bits.
    pub open spec fn spec_try_from(s: Seq<char>) -> Result<SerialTriggerMode, Error> {
        match find_sub(s, "TRGSTO"@) {
            Some(i) => match parse_uint(s.subrange(i + "TRGSTO"@.len(), s.len() as int)) {
                Some(n) => if n <= 0xffff_ffff {
                    Ok(SerialTriggerMode { ms: n as u32 })
                } else {
                    Err(Error::InvalidVariant)
                },
                None => Err(Error::InvalidVariant),
            },
            None => Err(Error::InvalidVariant),
        }
    }

    /// Creates a new [SerialTriggerMode].
    pub fn new() -> (r: Self)
        ensures
            r == (SerialTriggerMode { ms: 0 }),
    {
        Self { ms: 0 }
    }

    /// Gets the ASCII serial command code for [SerialTriggerMode].
    pub fn command(&self) -> (r: String)
        ensures
            r@ == self.spec_command(),
    {
        let mut out = String::from_str("TRGSTO");
        let digits = render_u32(self.ms);
        out.append(digits.as_str());
        out
    }

    /// Attempts to convert a number of timeout milliseconds into a
    /// [SerialTriggerMode]: succeeds exactly on `0..=MAX_SERIAL_TRIGGER`, and
    /// rejects any larger value as `InvalidValue`.
    pub fn try_from_ms(ms: u32) -> (r: Result<Self, Error>)
        ensures
            r == if ms <= MAX_SERIAL_TRIGGER {
                Ok::<SerialTriggerMode, Error>(SerialTriggerMode { ms })
            } else {
                Err::<SerialTriggerMode, Error>(Error::InvalidValue(ms as usize))
            },
    {
        if ms <= MAX_SERIAL_TRIGGER {
            Ok(Self { ms })
        } else {
            Err(Error::InvalidValue(ms as usize))
        }
    }

    /// Converts a [SerialTriggerMode] into its number of milliseconds.
    pub fn into_ms(self) -> (r: u32)
        ensures
            r == self.ms,
    {
        self.ms
    }

    /// Decodes a [SerialTriggerMode] from a fragment.
    pub fn try_from(val: &str) -> (r: Result<Self, Error>)
        ensures
            r == SerialTriggerMode::spec_try_from(val@),
    {
        proof {
            reveal_strlit("TRGSTO");
        }
        match str_find_sub(val, "TRGSTO") {
            Some(i) => {
                let n = val.unicode_len();
                match parse_u32_in(val, i + 6, n, u32::MAX) {
                    Some(ms) => Ok(Self { ms }),
                    None => Err(Error::InvalidVariant),
                }
            },
            None => Err(Error::InvalidVariant),
        }
    }
}

impl Default for SerialTriggerMode {
    fn default() -> (r: Self)
        ensures
            r == (SerialTriggerMode { ms: 0 }),
    {
        Self::new()
    }
}

/// Round trip: decoding an encoded command yields the same timeout.
pub proof fn lemma_round_trip(v: SerialTriggerMode)
    ensures
        SerialTriggerMode::spec_try_from(v.spec_command()) == Ok::<SerialTriggerMode, Error>(v),
{
    reveal_strlit("TRGSTO");
    let s = v.spec_command();
    let prefix = "TRGSTO"@;
    assert(match_at(s, prefix, 0));
    lemma_find_sub_at_zero(s, prefix);
    assert(s.subrange(prefix.len() as int, s.len() as int) =~= dec_digits(v.ms as nat));
    lemma_parse_uint_of_dec_digits(v.ms as nat);
}

} // verus!
