//! Writing and reading whole containers: header, then the Brotli stream of
//! the RGBA8 pixel buffer.

use vstd::prelude::*;
use crate::compress::{brotli_compress, brotli_decoded, brotli_decompress};
use crate::error::{ErrorKind, QpError};
use crate::format::{format_of_path, output_format_for_path, OutputFormat};
use crate::header::{
    has_magic, header_bytes, lemma_header_fields_of_bytes, lemma_parse_of_header_bytes,
    parse_header, parsed_header, Header, COMPRESSION_METHOD_BROTLI, HEADER_LEN,
};
use crate::pixels::{
    has_rgba_len, is_rgba_len, reconstruct, reconstructed, rgb_of, PixelBuffer, Pixels,
};

verus! {

/// Brotli quality the encoder asks for: the highest.
pub const BROTLI_QUALITY: i32 = 11;

/// Brotli window size (as a power of two) the encoder asks for: the largest.
pub const BROTLI_LGWIN: i32 = 24;

/// A container: the header's fourteen bytes, then the payload.
pub open spec fn container_bytes(h: Header, payload: Seq<u8>) -> Seq<u8> {
    header_bytes(h) + payload
}

/// What a container stands for: its header must parse, its payload (all
/// bytes after the fourteenth) must be a Brotli stream, and what that
/// decompresses to must reconstruct under the header. The first step that
/// fails names the error.
pub open spec fn decoded_pixels(file: Seq<u8>) -> Result<Pixels, ErrorKind> {
    match parsed_header(file) {
        Err(e) => Err(e.spec_kind()),
        Ok(h) => match brotli_decoded(file.skip(14)) {
            None => Err(ErrorKind::Decompress),
            Some(data) => match reconstructed(h, data) {
                Ok(p) => Ok(p),
                Err(e) => Err(e.spec_kind()),
            },
        },
    }
}

/// The header's bytes followed by `payload`.
pub fn assemble_container(header: &Header, payload: &[u8]) -> (file: Vec<u8>)
    ensures
        file@ == container_bytes(*header, payload@),
{
    let mut file = header.to_bytes();
    let mut i: usize = 0;
    while i < payload.len()
        invariant
            i <= payload@.len(),
            file@ == header_bytes(*header) + payload@.subrange(0, i as int),
        decreases payload@.len() - i,
    {
        file.push(payload[i]);
        i += 1;
        assert(file@ =~= header_bytes(*header) + payload@.subrange(0, i as int));
    }
    assert(payload@.subrange(0, i as int) =~= payload@);
    file
}

/// Finishes an encode once the compressor has run: a stream is put behind
/// the header for a `width` by `height` RGBA image, a failure is passed on.
pub fn container_from_compressed(width: u32, height: u32, compressed: Result<Vec<u8>, String>) -> (r:
    Result<Vec<u8>, QpError>)
    ensures
        compressed matches Ok(stream) ==> r matches Ok(file) && file@ == container_bytes(
            Header::spec_for_rgba(width, height),
            stream@,
        ),
        compressed matches Err(msg) ==> r == Err::<Vec<u8>, QpError>(QpError::Compress(msg)),
{
    match compressed {
        Ok(stream) => {
            let header = Header::for_rgba(width, height);
            Ok(assemble_container(&header, stream.as_slice()))
        },
        Err(msg) => Err(QpError::Compress(msg)),
    }
}

/// Encodes a `width` by `height` image, given as RGBA8 samples row by row,
/// as a container: a header with four channels and the Brotli method, then
/// the samples compressed at the highest quality and the largest window.
///
/// Samples that do not number `width * height * 4` are refused. Otherwise
/// the only failure is one the compressor reports, and a container that
/// comes back decodes to exactly the samples given.
pub fn encode_image(width: u32, height: u32, rgba: &[u8]) -> (r: Result<Vec<u8>, QpError>)
    ensures
        !is_rgba_len(width, height, rgba@.len() as int) ==> r == Err::<Vec<u8>, QpError>(
            QpError::SizeMismatch,
        ),
        is_rgba_len(width, height, rgba@.len() as int) ==> match r {
            Ok(file) => {
                &&& file@.len() >= 14
                &&& file@.subrange(0, 14) == header_bytes(Header::spec_for_rgba(width, height))
                &&& brotli_decoded(file@.skip(14)) == Some(rgba@)
                &&& decoded_pixels(file@) == Ok::<Pixels, ErrorKind>(
                    Pixels::Rgba8 { width, height, data: rgba@ },
                )
            },
            Err(e) => e is Compress,
        },
{
    if !has_rgba_len(width, height, rgba.len()) {
        return Err(QpError::SizeMismatch);
    }
    let compressed = brotli_compress(rgba, BROTLI_QUALITY, BROTLI_LGWIN);
    proof {
        if compressed is Ok {
            let h = Header::spec_for_rgba(width, height);
            let stream = compressed->Ok_0@;
            lemma_decode_of_container(h, stream, rgba@);
            lemma_header_fields_of_bytes(h, stream);
            assert(container_bytes(h, stream).subrange(0, 14) =~= header_bytes(h));
        }
    }
    container_from_compressed(width, height, compressed)
}

/// Finishes a decode once the decompressor has run: what it produced is
/// reconstructed under `header`, a failure is passed on.
pub fn pixels_from_decompressed(header: &Header, decompressed: Result<Vec<u8>, String>) -> (r:
    Result<PixelBuffer, QpError>)
    ensures
        decompressed matches Err(msg) ==> r == Err::<PixelBuffer, QpError>(
            QpError::Decompress(msg),
        ),
        decompressed matches Ok(data) ==> {
            &&& r is Ok == reconstructed(*header, data@) is Ok
            &&& r matches Ok(p) ==> Ok::<Pixels, QpError>(p@) == reconstructed(*header, data@)
                && p@.wf()
            &&& r matches Err(e) ==> Err::<Pixels, QpError>(e) == reconstructed(*header, data@)
        },
{
    match decompressed {
        Ok(data) => reconstruct(header, data),
        Err(msg) => Err(QpError::Decompress(msg)),
    }
}

/// Decodes a container into the image it stands for.
///
/// Fails, in this order, when fewer than fourteen bytes are given, when the
/// magic is wrong, when the compression method is not Brotli, when the
/// payload does not decompress, when it does not decompress to
/// `width * height * 4` bytes, and when the channel count is neither 3 nor 4.
pub fn decode_pixels(qp: &[u8]) -> (r: Result<PixelBuffer, QpError>)
    ensures
        r matches Ok(p) ==> decoded_pixels(qp@) == Ok::<Pixels, ErrorKind>(p@) && p@.wf(),
        r matches Err(e) ==> decoded_pixels(qp@) == Err::<Pixels, ErrorKind>(e.spec_kind()),
        r matches Err(QpError::UnsupportedCompression(m)) ==> qp@.len() >= 14 && m == qp@[13],
{
    let header = match parse_header(qp) {
        Ok(h) => h,
        Err(e) => {
            return Err(e);
        },
    };
    let payload = vstd::slice::slice_subrange(qp, HEADER_LEN, qp.len());
    assert(payload@ =~= qp@.skip(14));
    let decompressed = brotli_decompress(payload);
    pixels_from_decompressed(&header, decompressed)
}

/// What decoding a container for the destination `path` yields: the image
/// the container stands for and the format the path selects. A container
/// that does not decode is reported before the path is looked at.
pub open spec fn decoded_image(file: Seq<u8>, path: Seq<char>) -> Result<
    (Pixels, OutputFormat),
    ErrorKind,
> {
    match decoded_pixels(file) {
        Err(k) => Err(k),
        Ok(p) => match format_of_path(path) {
            Some(f) => Ok((p, f)),
            None => Err(ErrorKind::UnsupportedOutputFormat),
        },
    }
}

/// Decodes a container bound for the file `output_path`: gives the image
/// and the raster format to write it in, which the path's extension
/// selects.
///
/// Fails as [`decode_pixels`] does, and after that when the path has no
/// extension or one that names no format; so nothing is handed out for
/// writing unless both the container and the path are in order.
pub fn decode_image(qp: &[u8], output_path: &str) -> (r: Result<
    (PixelBuffer, OutputFormat),
    QpError,
>)
    ensures
        r matches Ok((p, f)) ==> decoded_image(qp@, output_path@) == Ok::<
            (Pixels, OutputFormat),
            ErrorKind,
        >((p@, f)) && p@.wf(),
        r matches Err(e) ==> decoded_image(qp@, output_path@) == Err::<
            (Pixels, OutputFormat),
            ErrorKind,
        >(e.spec_kind()),
        r matches Err(QpError::UnsupportedCompression(m)) ==> qp@.len() >= 14 && m == qp@[13],
{
    let pixels = match decode_pixels(qp) {
        Ok(p) => p,
        Err(e) => {
            return Err(e);
        },
    };
    match output_format_for_path(output_path) {
        Ok(format) => Ok((pixels, format)),
        Err(e) => Err(e),
    }
}

/// Round trip: a container made of the header `h` (with the Brotli method
/// and three or four channels) and of any stream that decompresses to the
/// RGBA8 samples of a `h.width` by `h.height` image decodes to those
/// samples, with alpha dropped when `h` says three channels.
pub proof fn lemma_decode_of_container(h: Header, stream: Seq<u8>, rgba: Seq<u8>)
    requires
        h.compression_method == COMPRESSION_METHOD_BROTLI,
        h.channels == 3 || h.channels == 4,
        brotli_decoded(stream) == Some(rgba),
        is_rgba_len(h.width, h.height, rgba.len() as int),
    ensures
        decoded_pixels(container_bytes(h, stream)) == Ok::<Pixels, ErrorKind>(
            if h.channels == 4 {
                Pixels::Rgba8 { width: h.width, height: h.height, data: rgba }
            } else {
                Pixels::Rgb8 { width: h.width, height: h.height, data: rgb_of(rgba) }
            },
        ),
{
    lemma_header_fields_of_bytes(h, stream);
    lemma_parse_of_header_bytes(h, stream);
}

/// A stream that does not start with the magic never decodes, whatever
/// else it holds.
pub proof fn lemma_decode_rejects_wrong_magic(file: Seq<u8>)
    requires
        !has_magic(file),
    ensures
        decoded_pixels(file) is Err,
        file.len() >= 14 ==> decoded_pixels(file) == Err::<Pixels, ErrorKind>(ErrorKind::BadMagic),
{
}

/// A container whose header names a compression method other than Brotli
/// never decodes, even if its payload is a valid stream.
pub proof fn lemma_decode_rejects_unknown_compression(file: Seq<u8>)
    requires
        file.len() >= 14,
        has_magic(file),
        file[13] != COMPRESSION_METHOD_BROTLI,
    ensures
        decoded_pixels(file) == Err::<Pixels, ErrorKind>(ErrorKind::UnsupportedCompression),
{
}

/// A destination whose extension selects no format gets nothing to write:
/// the decode fails, and where the container itself is in order it fails
/// for the extension.
pub proof fn lemma_decode_needs_known_extension(file: Seq<u8>, path: Seq<char>)
    requires
        format_of_path(path) is None,
    ensures
        decoded_image(file, path) is Err,
        decoded_pixels(file) is Ok ==> decoded_image(file, path) == Err::<
            (Pixels, OutputFormat),
            ErrorKind,
        >(ErrorKind::UnsupportedOutputFormat),
{
}

/// A container decodes only if its header says three or four channels; one
/// that gets as far as a payload of the right length with any other channel
/// count is refused as unsupported.
pub proof fn lemma_decode_channel_validity(file: Seq<u8>)
    ensures
        decoded_pixels(file) is Ok ==> file[12] == 3 || file[12] == 4,
        (parsed_header(file) matches Ok(h) && brotli_decoded(file.skip(14)) matches Some(data)
            && is_rgba_len(h.width, h.height, data.len() as int) && file[12] != 3 && file[12] != 4)
            ==> decoded_pixels(file) == Err::<Pixels, ErrorKind>(ErrorKind::UnsupportedChannels),
{
}

/// A container whose payload decompresses to anything but
/// `width * height * 4` bytes is refused.
pub proof fn lemma_decode_size_consistency(file: Seq<u8>)
    requires
        parsed_header(file) matches Ok(h) && brotli_decoded(file.skip(14)) matches Some(data)
            && data.len() != h.width as int * h.height as int * 4,
    ensures
        decoded_pixels(file) == Err::<Pixels, ErrorKind>(ErrorKind::SizeMismatch),
{
}

} // verus!
