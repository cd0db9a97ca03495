//! The Brotli compressor and decompressor, as far as the container needs
//! them. Nothing in this file is proved: it states what the rest of the
//! crate takes on trust from the `brotli` crate.

use vstd::prelude::*;

verus! {

/// What the Brotli stream at the front of `stream` decompresses to, or
/// `None` where `stream` does not hold a complete stream.
pub uninterp spec fn brotli_decoded(stream: Seq<u8>) -> Option<Seq<u8>>;

/// Calls `brotli::BrotliDecompress` on an in-memory stream.
///
/// Taken on trust: the outcome depends on the input bytes alone; success
/// hands back everything the stream decompresses to, and a failure of the
/// decompressor (a corrupt stream, or one that ends early) is reported as
/// an error carrying the decompressor's message.
#[verifier::external_body]
pub(crate) fn brotli_decompress(stream: &[u8]) -> (r: Result<Vec<u8>, String>)
    ensures
        r matches Ok(data) ==> brotli_decoded(stream@) == Some(data@),
        r is Err ==> brotli_decoded(stream@) is None,
{
    let mut input: &[u8] = stream;
    let mut out: Vec<u8> = Vec::new();
    match brotli::BrotliDecompress(&mut input, &mut out) {
        Ok(()) => Ok(out),
        Err(e) => Err(e.to_string()),
    }
}

/// Calls `brotli::BrotliCompress` on an in-memory buffer, with the default
/// encoder parameters but for the quality and the window size given.
///
/// Taken on trust: Brotli is lossless, so whatever stream comes back
/// decompresses to exactly `data`. Nothing is claimed about which stream
/// comes back, nor that one does: a failure of the compressor is reported
/// as an error carrying its message.
#[verifier::external_body]
pub(crate) fn brotli_compress(data: &[u8], quality: i32, lgwin: i32) -> (r: Result<
    Vec<u8>,
    String,
>)
    requires
        0 <= quality <= 11,
        10 <= lgwin <= 24,
    ensures
        r matches Ok(stream) ==> brotli_decoded(stream@) == Some(data@),
{
    let mut params = brotli::enc::BrotliEncoderParams::default();
    params.quality = quality;
    params.lgwin = lgwin;
    let mut input: &[u8] = data;
    let mut out: Vec<u8> = Vec::new();
    match brotli::BrotliCompress(&mut input, &mut out, &params) {
        Ok(_) => Ok(out),
        Err(e) => Err(e.to_string()),
    }
}

} // verus!
