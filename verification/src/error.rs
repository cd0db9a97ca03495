//! What can go wrong while a container is written or read.

use vstd::prelude::*;

verus! {

/// The reason a call failed, without the detail an outside codec attached.
#[derive(Clone, Copy, Debug, PartialEq, Eq, Structural)]
pub enum ErrorKind {
    /// Fewer than fourteen bytes were available for the header.
    TruncatedHeader,
    /// The first four bytes are not `QPIM`.
    BadMagic,
    /// The header names a compression method other than Brotli.
    UnsupportedCompression,
    /// The payload is not a complete Brotli stream.
    Decompress,
    /// The pixel bytes do not number `width * height * 4`.
    SizeMismatch,
    /// The header's channel count is neither 3 nor 4.
    UnsupportedChannels,
    /// The destination path has no extension, or one that names no format.
    UnsupportedOutputFormat,
    /// The compressor reported a failure.
    Compress,
}

/// A failed encode or decode.
#[derive(Debug, PartialEq, Eq)]
pub enum QpError {
    /// Fewer than fourteen bytes were available for the header.
    TruncatedHeader,
    /// The first four bytes are not `QPIM`.
    BadMagic,
    /// The header names this compression method, which is not Brotli.
    UnsupportedCompression(u8),
    /// The payload is not a complete Brotli stream; the decompressor's words.
    Decompress(String),
    /// The pixel bytes do not number `width * height * 4`.
    SizeMismatch,
    /// The header's channel count is neither 3 nor 4.
    UnsupportedChannels,
    /// The destination path has no extension, or one that names no format.
    UnsupportedOutputFormat,
    /// The compressor reported a failure; its words.
    Compress(String),
}

/// The character that writes the digit `d`.
pub open spec fn digit_chars(d: int) -> Seq<char> {
    if d == 0 {
        "0"@
    } else if d == 1 {
        "1"@
    } else if d == 2 {
        "2"@
    } else if d == 3 {
        "3"@
    } else if d == 4 {
        "4"@
    } else if d == 5 {
        "5"@
    } else if d == 6 {
        "6"@
    } else if d == 7 {
        "7"@
    } else if d == 8 {
        "8"@
    } else {
        "9"@
    }
}

/// `n` written in decimal, without leading zeros.
pub open spec fn decimal_of(n: u8) -> Seq<char> {
    if n >= 100 {
        digit_chars(n as int / 100) + digit_chars(n as int / 10 % 10) + digit_chars(n as int % 10)
    } else if n >= 10 {
        digit_chars(n as int / 10) + digit_chars(n as int % 10)
    } else {
        digit_chars(n as int)
    }
}

/// The character that writes the digit `d`.
fn digit_str(d: u8) -> (s: &'static str)
    requires
        d < 10,
    ensures
        s@ == digit_chars(d as int),
{
    if d == 0 {
        "0"
    } else if d == 1 {
        "1"
    } else if d == 2 {
        "2"
    } else if d == 3 {
        "3"
    } else if d == 4 {
        "4"
    } else if d == 5 {
        "5"
    } else if d == 6 {
        "6"
    } else if d == 7 {
        "7"
    } else if d == 8 {
        "8"
    } else {
        "9"
    }
}

/// Appends `n` in decimal to `out`.
fn push_decimal(out: &mut String, n: u8)
    ensures
        final(out)@ == old(out)@ + decimal_of(n),
{
    if n >= 100 {
        out.append(digit_str(n / 100));
    }
    if n >= 10 {
        out.append(digit_str(n / 10 % 10));
    }
    out.append(digit_str(n % 10));
    assert(out@ =~= old(out)@ + decimal_of(n));
}

impl QpError {
    /// The line that describes this error to a person.
    pub open spec fn spec_message(&self) -> Seq<char> {
        match self {
            QpError::TruncatedHeader => "failed to fill whole buffer"@,
            QpError::BadMagic => "Invalid QP image file: Incorrect magic number."@,
            QpError::UnsupportedCompression(m) => "Unsupported compression method: "@
                + decimal_of(*m),
            QpError::Decompress(msg) => msg@,
            QpError::SizeMismatch => "Failed to reconstruct image from pixel data."@,
            QpError::UnsupportedChannels => "Unsupported number of channels."@,
            QpError::UnsupportedOutputFormat =>
                "Unsupported or missing output image format extension."@,
            QpError::Compress(msg) => msg@,
        }
    }

    /// The line that describes this error to a person.
    pub fn message(&self) -> (text: String)
        ensures
            text@ == self.spec_message(),
    {
        match self {
            QpError::TruncatedHeader => String::from_str("failed to fill whole buffer"),
            QpError::BadMagic => String::from_str(
                "Invalid QP image file: Incorrect magic number.",
            ),
            QpError::UnsupportedCompression(m) => {
                let mut text = String::from_str("Unsupported compression method: ");
                push_decimal(&mut text, *m);
                text
            },
            QpError::Decompress(msg) => msg.clone(),
            QpError::SizeMismatch => String::from_str(
                "Failed to reconstruct image from pixel data.",
            ),
            QpError::UnsupportedChannels => String::from_str("Unsupported number of channels."),
            QpError::UnsupportedOutputFormat => String::from_str(
                "Unsupported or missing output image format extension.",
            ),
            QpError::Compress(msg) => msg.clone(),
        }
    }

    /// The reason behind this error.
    pub open spec fn spec_kind(&self) -> ErrorKind {
        match self {
            QpError::TruncatedHeader => ErrorKind::TruncatedHeader,
            QpError::BadMagic => ErrorKind::BadMagic,
            QpError::UnsupportedCompression(_) => ErrorKind::UnsupportedCompression,
            QpError::Decompress(_) => ErrorKind::Decompress,
            QpError::SizeMismatch => ErrorKind::SizeMismatch,
            QpError::UnsupportedChannels => ErrorKind::UnsupportedChannels,
            QpError::UnsupportedOutputFormat => ErrorKind::UnsupportedOutputFormat,
            QpError::Compress(_) => ErrorKind::Compress,
        }
    }

    /// The reason behind this error.
    #[verifier::when_used_as_spec(spec_kind)]
    pub fn kind(&self) -> (k: ErrorKind)
        ensures
            k == self.spec_kind(),
    {
        match self {
            QpError::TruncatedHeader => ErrorKind::TruncatedHeader,
            QpError::BadMagic => ErrorKind::BadMagic,
            QpError::UnsupportedCompression(_) => ErrorKind::UnsupportedCompression,
            QpError::Decompress(_) => ErrorKind::Decompress,
            QpError::SizeMismatch => ErrorKind::SizeMismatch,
            QpError::UnsupportedChannels => ErrorKind::UnsupportedChannels,
            QpError::UnsupportedOutputFormat => ErrorKind::UnsupportedOutputFormat,
            QpError::Compress(_) => ErrorKind::Compress,
        }
    }
}

} // verus!
