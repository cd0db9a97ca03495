//! Pixel buffers: row-major 8-bit samples, four per pixel as stored, three
//! per pixel when the alpha channel is dropped.

use vstd::prelude::*;
use crate::error::QpError;
use crate::header::Header;

verus! {

/// How many bytes are kept of `n` RGBA bytes when every fourth is dropped.
pub open spec fn rgb_len(n: int) -> int {
    3 * (n / 4) + n % 4
}

/// `rgba` without every fourth byte: of each group of four the first three,
/// in order. A last group of fewer than four bytes is kept whole.
pub open spec fn rgb_of(rgba: Seq<u8>) -> Seq<u8> {
    Seq::new(rgb_len(rgba.len() as int) as nat, |j: int| rgba[(j / 3) * 4 + j % 3])
}

/// Drops the alpha channel: keeps the first three bytes of each four-byte
/// pixel, in order.
pub fn convert_rgba_to_rgb(rgba_data: &[u8]) -> (rgb: Vec<u8>)
    ensures
        rgb@ == rgb_of(rgba_data@),
{
    let mut rgb: Vec<u8> = Vec::new();
    let mut i: usize = 0;
    while i < rgba_data.len()
        invariant
            i <= rgba_data@.len(),
            rgb@.len() == rgb_len(i as int),
            forall|j: int|
                0 <= j < rgb@.len() ==> #[trigger] rgb@[j] == rgba_data@[(j / 3) * 4 + j % 3],
        decreases rgba_data@.len() - i,
    {
        if i % 4 != 3 {
            rgb.push(rgba_data[i]);
        }
        i += 1;
    }
    assert(rgb@ =~= rgb_of(rgba_data@));
    rgb
}

/// A decoded image as a mathematical value.
pub enum Pixels {
    /// Four samples per pixel: red, green, blue, alpha.
    Rgba8 { width: u32, height: u32, data: Seq<u8> },
    /// Three samples per pixel: red, green, blue.
    Rgb8 { width: u32, height: u32, data: Seq<u8> },
}

/// A decoded image, ready to be handed to a raster encoder.
#[derive(Debug, PartialEq, Eq)]
pub enum PixelBuffer {
    /// Four samples per pixel: red, green, blue, alpha.
    Rgba8 { width: u32, height: u32, data: Vec<u8> },
    /// Three samples per pixel: red, green, blue.
    Rgb8 { width: u32, height: u32, data: Vec<u8> },
}

impl View for PixelBuffer {
    type V = Pixels;

    open spec fn view(&self) -> Pixels {
        match self {
            PixelBuffer::Rgba8 { width, height, data } => Pixels::Rgba8 {
                width: *width,
                height: *height,
                data: data@,
            },
            PixelBuffer::Rgb8 { width, height, data } => Pixels::Rgb8 {
                width: *width,
                height: *height,
                data: data@,
            },
        }
    }
}

impl Pixels {
    /// Samples per pixel.
    pub open spec fn channels(self) -> int {
        match self {
            Pixels::Rgba8 { .. } => 4,
            Pixels::Rgb8 { .. } => 3,
        }
    }

    /// Pixel width.
    pub open spec fn width(self) -> u32 {
        match self {
            Pixels::Rgba8 { width, .. } => width,
            Pixels::Rgb8 { width, .. } => width,
        }
    }

    /// Pixel height.
    pub open spec fn height(self) -> u32 {
        match self {
            Pixels::Rgba8 { height, .. } => height,
            Pixels::Rgb8 { height, .. } => height,
        }
    }

    /// The samples, row by row.
    pub open spec fn data(self) -> Seq<u8> {
        match self {
            Pixels::Rgba8 { data, .. } => data,
            Pixels::Rgb8 { data, .. } => data,
        }
    }

    /// The buffer holds exactly one sample per channel of every pixel.
    pub open spec fn wf(self) -> bool {
        self.data().len() == self.width() as int * self.height() as int * self.channels()
    }
}

impl PixelBuffer {
    /// Samples per pixel: 4 or 3.
    pub fn channels(&self) -> (c: u8)
        ensures
            c == self@.channels(),
    {
        match self {
            PixelBuffer::Rgba8 { .. } => 4,
            PixelBuffer::Rgb8 { .. } => 3,
        }
    }

    /// Pixel width.
    pub fn width(&self) -> (w: u32)
        ensures
            w == self@.width(),
    {
        match self {
            PixelBuffer::Rgba8 { width, .. } => *width,
            PixelBuffer::Rgb8 { width, .. } => *width,
        }
    }

    /// Pixel height.
    pub fn height(&self) -> (h: u32)
        ensures
            h == self@.height(),
    {
        match self {
            PixelBuffer::Rgba8 { height, .. } => *height,
            PixelBuffer::Rgb8 { height, .. } => *height,
        }
    }

    /// The samples, row by row.
    pub fn data(&self) -> (d: &[u8])
        ensures
            d@ == self@.data(),
    {
        match self {
            PixelBuffer::Rgba8 { data, .. } => data.as_slice(),
            PixelBuffer::Rgb8 { data, .. } => data.as_slice(),
        }
    }
}

/// Whether `len` bytes are exactly the RGBA8 samples of a `width` by
/// `height` image.
pub open spec fn is_rgba_len(width: u32, height: u32, len: int) -> bool {
    len == width as int * height as int * 4
}

/// Whether `len` bytes are exactly the RGBA8 samples of a `width` by
/// `height` image.
pub fn has_rgba_len(width: u32, height: u32, len: usize) -> (b: bool)
    ensures
        b == is_rgba_len(width, height, len as int),
{
    assert(width as int * height as int <= 0xFFFF_FFFF * 0xFFFF_FFFF) by (nonlinear_arith)
        requires
            0 <= width as int <= 0xFFFF_FFFF,
            0 <= height as int <= 0xFFFF_FFFF,
    ;
    assert(0 <= width as int * height as int) by (nonlinear_arith)
        requires
            0 <= width as int,
            0 <= height as int,
    ;
    let pixels: u64 = (width as u64) * (height as u64);
    len % 4 == 0 && (len / 4) as u64 == pixels
}

/// What the decompressed payload of a container with header `h` stands for:
/// its length must be `width * height * 4`; then four channels give the
/// bytes as they are, three give them without alpha, and any other channel
/// count is refused.
pub open spec fn reconstructed(h: Header, data: Seq<u8>) -> Result<Pixels, QpError> {
    if !is_rgba_len(h.width, h.height, data.len() as int) {
        Err(QpError::SizeMismatch)
    } else if h.channels == 4 {
        Ok(Pixels::Rgba8 { width: h.width, height: h.height, data })
    } else if h.channels == 3 {
        Ok(Pixels::Rgb8 { width: h.width, height: h.height, data: rgb_of(data) })
    } else {
        Err(QpError::UnsupportedChannels)
    }
}

/// Turns the decompressed payload of a container into the image its header
/// describes.
pub fn reconstruct(header: &Header, data: Vec<u8>) -> (r: Result<PixelBuffer, QpError>)
    ensures
        r is Ok == reconstructed(*header, data@) is Ok,
        r matches Ok(p) ==> Ok::<Pixels, QpError>(p@) == reconstructed(*header, data@) && p@.wf(),
        r matches Err(e) ==> Err::<Pixels, QpError>(e) == reconstructed(*header, data@),
{
    if !has_rgba_len(header.width, header.height, data.len()) {
        return Err(QpError::SizeMismatch);
    }
    if header.channels == 4 {
        Ok(PixelBuffer::Rgba8 { width: header.width, height: header.height, data })
    } else if header.channels == 3 {
        let rgb = convert_rgba_to_rgb(data.as_slice());
        proof {
            lemma_rgb_len_of_whole_pixels(header.width as int * header.height as int);
        }
        Ok(PixelBuffer::Rgb8 { width: header.width, height: header.height, data: rgb })
    } else {
        Err(QpError::UnsupportedChannels)
    }
}

/// Dropping alpha from `n` whole pixels leaves three bytes for each.
pub proof fn lemma_rgb_len_of_whole_pixels(n: int)
    requires
        0 <= n,
    ensures
        rgb_len(n * 4) == n * 3,
{
}

/// Byte `c` of pixel `p` survives the dropping of alpha at place `3p + c`.
pub proof fn lemma_rgb_of_index(rgba: Seq<u8>, p: int, c: int)
    requires
        0 <= p,
        0 <= c < 3,
        4 * p + c < rgba.len(),
    ensures
        3 * p + c < rgb_of(rgba).len(),
        rgb_of(rgba)[3 * p + c] == rgba[4 * p + c],
{
    let j = 3 * p + c;
    assert(j / 3 == p && j % 3 == c);
    let n = rgba.len() as int;
    assert(j < rgb_len(n));
}

/// Only three and four channels reconstruct: with the right number of
/// bytes, a header with three or four channels gives an image, and every
/// other channel count is refused as unsupported.
pub proof fn lemma_channel_validity(h: Header, data: Seq<u8>)
    ensures
        reconstructed(h, data) is Ok ==> h.channels == 3 || h.channels == 4,
        is_rgba_len(h.width, h.height, data.len() as int) && (h.channels == 3 || h.channels == 4)
            ==> reconstructed(h, data) is Ok,
        is_rgba_len(h.width, h.height, data.len() as int) && h.channels != 3 && h.channels != 4
            ==> reconstructed(h, data) == Err::<Pixels, QpError>(QpError::UnsupportedChannels),
{
}

/// A payload of the wrong length is always refused, whatever the channel
/// count says.
pub proof fn lemma_size_consistency(h: Header, data: Seq<u8>)
    requires
        data.len() != h.width as int * h.height as int * 4,
    ensures
        reconstructed(h, data) == Err::<Pixels, QpError>(QpError::SizeMismatch),
{
}

/// What is reconstructed holds exactly one sample per channel of each pixel.
pub proof fn lemma_reconstructed_wf(h: Header, data: Seq<u8>)
    ensures
        reconstructed(h, data) matches Ok(p) ==> p.wf() && p.width() == h.width && p.height()
            == h.height && p.channels() == h.channels,
{
    if is_rgba_len(h.width, h.height, data.len() as int) {
        assert(0 <= h.width as int * h.height as int) by (nonlinear_arith)
            requires
                0 <= h.width as int,
                0 <= h.height as int,
        ;
        lemma_rgb_len_of_whole_pixels(h.width as int * h.height as int);
    }
}

} // verus!
