//! The fixed fourteen-byte header: magic, width, height, channel count and
//! compression method, integers big-endian.

use vstd::prelude::*;
use crate::error::QpError;

verus! {

/// The four identifier bytes every container starts with: `QPIM`.
pub const MAGIC: [u8; 4] = [0x51, 0x50, 0x49, 0x4D];

/// Length in bytes of the fixed header.
pub const HEADER_LEN: usize = 14;

/// Tag of the only compression method defined so far (Brotli).
pub const COMPRESSION_METHOD_BROTLI: u8 = 1;

/// The fields that follow the magic.
#[derive(Clone, Copy, Debug, PartialEq, Eq, Structural)]
pub struct Header {
    /// Pixel width.
    pub width: u32,
    /// Pixel height.
    pub height: u32,
    /// 3 for RGB output, 4 for RGBA output.
    pub channels: u8,
    /// How the payload is compressed.
    pub compression_method: u8,
}

/// The number whose big-endian bytes are `b0 b1 b2 b3`.
pub open spec fn be_u32(b0: u8, b1: u8, b2: u8, b3: u8) -> int {
    b0 as int * 0x100_0000 + b1 as int * 0x1_0000 + b2 as int * 0x100 + b3 as int
}

/// The four big-endian bytes of `x`.
pub open spec fn be_bytes(x: u32) -> Seq<u8> {
    seq![
        (x as int / 0x100_0000) as u8,
        (x as int / 0x1_0000 % 0x100) as u8,
        (x as int / 0x100 % 0x100) as u8,
        (x as int % 0x100) as u8,
    ]
}

/// The magic as a sequence.
pub open spec fn magic_bytes() -> Seq<u8> {
    seq![0x51u8, 0x50u8, 0x49u8, 0x4Du8]
}

/// The fourteen bytes that stand for `h`.
pub open spec fn header_bytes(h: Header) -> Seq<u8> {
    magic_bytes() + be_bytes(h.width) + be_bytes(h.height) + seq![h.channels, h.compression_method]
}

/// Whether `bytes` starts with the magic.
pub open spec fn has_magic(bytes: Seq<u8>) -> bool {
    bytes.len() >= 4 && bytes.subrange(0, 4) == magic_bytes()
}

/// The fields held by the first fourteen bytes of `bytes`, whatever they say.
pub open spec fn header_fields(bytes: Seq<u8>) -> Header
    recommends
        bytes.len() >= 14,
{
    Header {
        width: be_u32(bytes[4], bytes[5], bytes[6], bytes[7]) as u32,
        height: be_u32(bytes[8], bytes[9], bytes[10], bytes[11]) as u32,
        channels: bytes[12],
        compression_method: bytes[13],
    }
}

/// What reading a header from the front of `bytes` yields: the input is too
/// short, then the magic is wrong, then the compression method is unknown,
/// in that order; otherwise the fields.
pub open spec fn parsed_header(bytes: Seq<u8>) -> Result<Header, QpError> {
    if bytes.len() < 14 {
        Err(QpError::TruncatedHeader)
    } else if !has_magic(bytes) {
        Err(QpError::BadMagic)
    } else if bytes[13] != COMPRESSION_METHOD_BROTLI {
        Err(QpError::UnsupportedCompression(bytes[13]))
    } else {
        Ok(header_fields(bytes))
    }
}

/// The number written big-endian in bytes `at .. at + 4` of `bytes`.
fn read_be_u32(bytes: &[u8], at: usize) -> (x: u32)
    requires
        at + 4 <= bytes@.len(),
    ensures
        x == be_u32(bytes@[at as int], bytes@[at + 1], bytes@[at + 2], bytes@[at + 3]),
{
    let b0: u32 = bytes[at] as u32;
    let b1: u32 = bytes[at + 1] as u32;
    let b2: u32 = bytes[at + 2] as u32;
    let b3: u32 = bytes[at + 3] as u32;
    b0 * 0x100_0000 + b1 * 0x1_0000 + b2 * 0x100 + b3
}

/// Appends the four big-endian bytes of `x` to `out`.
fn push_be_u32(out: &mut Vec<u8>, x: u32)
    ensures
        final(out)@ == old(out)@ + be_bytes(x),
{
    out.push((x / 0x100_0000) as u8);
    out.push((x / 0x1_0000 % 0x100) as u8);
    out.push((x / 0x100 % 0x100) as u8);
    out.push((x % 0x100) as u8);
    assert(out@ =~= old(out)@ + be_bytes(x));
}

impl Header {
    /// The header an encoder writes for an image of the given size: four
    /// channels, Brotli.
    pub open spec fn spec_for_rgba(width: u32, height: u32) -> Header {
        Header { width, height, channels: 4, compression_method: COMPRESSION_METHOD_BROTLI }
    }

    /// The header an encoder writes for an image of the given size: four
    /// channels, Brotli.
    #[verifier::when_used_as_spec(spec_for_rgba)]
    pub fn for_rgba(width: u32, height: u32) -> (h: Header)
        ensures
            h == Header::spec_for_rgba(width, height),
    {
        Header { width, height, channels: 4, compression_method: COMPRESSION_METHOD_BROTLI }
    }

    /// The fourteen bytes that stand for this header.
    pub fn to_bytes(&self) -> (out: Vec<u8>)
        ensures
            out@ == header_bytes(*self),
            out@.len() == 14,
    {
        let mut out: Vec<u8> = Vec::new();
        out.push(MAGIC[0]);
        out.push(MAGIC[1]);
        out.push(MAGIC[2]);
        out.push(MAGIC[3]);
        assert(out@ =~= magic_bytes());
        push_be_u32(&mut out, self.width);
        push_be_u32(&mut out, self.height);
        out.push(self.channels);
        out.push(self.compression_method);
        assert(out@ =~= header_bytes(*self));
        out
    }
}

/// Reads the header at the front of `bytes`. Bytes after the fourteenth are
/// not looked at.
pub fn parse_header(bytes: &[u8]) -> (r: Result<Header, QpError>)
    ensures
        r == parsed_header(bytes@),
{
    if bytes.len() < HEADER_LEN {
        return Err(QpError::TruncatedHeader);
    }
    if bytes[0] != MAGIC[0] || bytes[1] != MAGIC[1] || bytes[2] != MAGIC[2] || bytes[3]
        != MAGIC[3] {
        assert(bytes@.subrange(0, 4)[0] == bytes@[0]);
        assert(bytes@.subrange(0, 4)[1] == bytes@[1]);
        assert(bytes@.subrange(0, 4)[2] == bytes@[2]);
        assert(bytes@.subrange(0, 4)[3] == bytes@[3]);
        return Err(QpError::BadMagic);
    }
    assert(bytes@.subrange(0, 4) =~= magic_bytes());
    let width = read_be_u32(bytes, 4);
    let height = read_be_u32(bytes, 8);
    let channels = bytes[12];
    let compression_method = bytes[13];
    if compression_method != COMPRESSION_METHOD_BROTLI {
        return Err(QpError::UnsupportedCompression(compression_method));
    }
    Ok(Header { width, height, channels, compression_method })
}

/// Reading back the big-endian bytes of a number gives the number.
pub proof fn lemma_be_roundtrip(x: u32)
    ensures
        be_bytes(x).len() == 4,
        be_u32(be_bytes(x)[0], be_bytes(x)[1], be_bytes(x)[2], be_bytes(x)[3]) == x,
{
}

/// A header's bytes start with the magic and hold its fields, whatever
/// follows them.
pub proof fn lemma_header_fields_of_bytes(h: Header, rest: Seq<u8>)
    ensures
        header_bytes(h).len() == 14,
        has_magic(header_bytes(h) + rest),
        header_fields(header_bytes(h) + rest) == h,
        (header_bytes(h) + rest).skip(14) == rest,
{
    let all = header_bytes(h) + rest;
    lemma_be_roundtrip(h.width);
    lemma_be_roundtrip(h.height);
    assert(all.subrange(0, 4) =~= magic_bytes());
    assert(all[4] == be_bytes(h.width)[0]);
    assert(all[5] == be_bytes(h.width)[1]);
    assert(all[6] == be_bytes(h.width)[2]);
    assert(all[7] == be_bytes(h.width)[3]);
    assert(all[8] == be_bytes(h.height)[0]);
    assert(all[9] == be_bytes(h.height)[1]);
    assert(all[10] == be_bytes(h.height)[2]);
    assert(all[11] == be_bytes(h.height)[3]);
    assert(all[12] == h.channels);
    assert(all[13] == h.compression_method);
    assert(all.skip(14) =~= rest);
}

/// Writing then reading: the bytes of a header are read back as that header
/// when its compression method is Brotli, and are refused with the method's
/// tag otherwise, whatever payload follows.
pub proof fn lemma_parse_of_header_bytes(h: Header, rest: Seq<u8>)
    ensures
        h.compression_method == COMPRESSION_METHOD_BROTLI ==> parsed_header(
            header_bytes(h) + rest,
        ) == Ok::<Header, QpError>(h),
        h.compression_method != COMPRESSION_METHOD_BROTLI ==> parsed_header(
            header_bytes(h) + rest,
        ) == Err::<Header, QpError>(QpError::UnsupportedCompression(h.compression_method)),
{
    lemma_header_fields_of_bytes(h, rest);
    let all = header_bytes(h) + rest;
    assert(all[13] == h.compression_method);
}

/// A stream whose first four bytes are not the magic is never read as a
/// header: it is too short, or the magic is reported wrong.
pub proof fn lemma_wrong_magic_rejected(bytes: Seq<u8>)
    requires
        !has_magic(bytes),
    ensures
        parsed_header(bytes) is Err,
        bytes.len() >= 14 ==> parsed_header(bytes) == Err::<Header, QpError>(QpError::BadMagic),
        bytes.len() < 14 ==> parsed_header(bytes) == Err::<Header, QpError>(
            QpError::TruncatedHeader,
        ),
{
}

/// A well-formed header whose compression method is not Brotli is refused,
/// with the tag it named, whatever the payload.
pub proof fn lemma_unknown_compression_rejected(bytes: Seq<u8>)
    requires
        bytes.len() >= 14,
        has_magic(bytes),
        bytes[13] != COMPRESSION_METHOD_BROTLI,
    ensures
        parsed_header(bytes) == Err::<Header, QpError>(QpError::UnsupportedCompression(bytes[13])),
{
}

} // verus!
