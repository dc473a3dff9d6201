//! The QR code symbology serial command.

use vstd::prelude::*;

use crate::result::Error;
use crate::text::contains_seq;
use crate::text::lemma_contains_self;
use crate::text::lemma_not_contains_same_len;
use crate::text::match_at;
use crate::text::str_contains;

verus! {

/// Represents the `QR Code` symbology serial command.
#[derive(Clone, Copy, Debug, Eq, PartialEq)]
pub enum QRCode {
    /// Restore the default QR code settings.
    DefaultSettings,
    /// QR code decoding disabled.
    Off,
    /// QR code decoding enabled.
    On,
}

impl QRCode {
    /// The fixed ASCII token for this variant.
    pub open spec fn spec_command(self) -> Seq<char> {
        match self {
            QRCode::DefaultSettings => "QRCDFT"@,
            QRCode::Off => "QRCENA0"@,
            QRCode::On => "QRCENA1"@,
        }
    }

    /// Decoding a fragment yields the first variant, in match order, whose
    /// token the fragment contains.  The enable token is checked before the
    /// disable token.
    pub open spec fn spec_try_from(s: Seq<char>) -> Result<QRCode, Error> {
        if contains_seq(s, "QRCDFT"@) {
            Ok(QRCode::DefaultSettings)
        } else if contains_seq(s, "QRCENA1"@) {
            Ok(QRCode::On)
        } else if contains_seq(s, "QRCENA0"@) {
            Ok(QRCode::Off)
        } else {
            Err(Error::InvalidVariant)
        }
    }

    /// Creates a new [QRCode].
    pub fn new() -> (r: Self)
        ensures
            r == QRCode::On,
    {
        Self::On
    }

    /// Gets the ASCII serial command code for [QRCode].
    pub fn command(&self) -> (r: &'static str)
        ensures
            r@ == self.spec_command(),
    {
        match self {
            Self::DefaultSettings => "QRCDFT",
            Self::Off => "QRCENA0",
            Self::On => "QRCENA1",
        }
    }

    /// Decodes a [QRCode] from a fragment containing one of its tokens.
    pub fn try_from(val: &str) -> (r: Result<Self, Error>)
        ensures
            r == QRCode::spec_try_from(val@),
    {
        if str_contains(val, "QRCDFT") {
            Ok(Self::DefaultSettings)
        } else if str_contains(val, "QRCENA1") {
            Ok(Self::On)
        } else if str_contains(val, "QRCENA0") {
            Ok(Self::Off)
        } else {
            Err(Error::InvalidVariant)
        }
    }
}

impl Default for QRCode {
    fn default() -> (r: Self)
        ensures
            r == QRCode::On,
    {
        Self::new()
    }
}

/// An enable/disable token (`QRCENA...`) does not contain the default token.
proof fn lemma_ena_excludes_default(s: Seq<char>)
    requires
        s.len() == 7,
        s[1] == 'R',
        s[3] == 'E',
    ensures
        !contains_seq(s, "QRCDFT"@),
{
    reveal_strlit("QRCDFT");
    assert forall|i: int| !match_at(s, "QRCDFT"@, i) by {
        if match_at(s, "QRCDFT"@, i) {
            if i == 0 {
                assert(s[3] == "QRCDFT"@[3]);
            } else {
                assert(s[1int + 0] == "QRCDFT"@[0]);
            }
        }
    }
}

/// Round trip: decoding an encoded variant yields that variant.
pub proof fn lemma_round_trip(v: QRCode)
    ensures
        QRCode::spec_try_from(v.spec_command()) == Ok::<QRCode, Error>(v),
{
    reveal_strlit("QRCDFT");
    reveal_strlit("QRCENA0");
    reveal_strlit("QRCENA1");
    lemma_contains_self(v.spec_command());
    match v {
        QRCode::DefaultSettings => {},
        QRCode::On => {
            lemma_ena_excludes_default("QRCENA1"@);
        },
        QRCode::Off => {
            lemma_ena_excludes_default("QRCENA0"@);
            lemma_not_contains_same_len("QRCENA0"@, "QRCENA1"@, 6);
        },
    }
}

} // verus!
