use qp_image::codec::{
    assemble_container, container_from_compressed, decode_image, decode_pixels, encode_image,
    pixels_from_decompressed, BROTLI_LGWIN, BROTLI_QUALITY,
};
use qp_image::error::{ErrorKind, QpError};
use qp_image::format::OutputFormat;
use qp_image::header::Header;
use qp_image::pixels::PixelBuffer;

const RED_2X1: [u8; 8] = [0xFF, 0, 0, 0xFF, 0xFF, 0, 0, 0xFF];

fn brotli_of(data: &[u8]) -> Vec<u8> {
    let mut params = brotli::enc::BrotliEncoderParams::default();
    params.quality = 11;
    params.lgwin = 24;
    let mut out = Vec::new();
    brotli::BrotliCompress(&mut &data[..], &mut out, &params).unwrap();
    out
}

fn container(width: u32, height: u32, channels: u8, method: u8, rgba: &[u8]) -> Vec<u8> {
    let h = Header { width, height, channels, compression_method: method };
    assemble_container(&h, &brotli_of(rgba))
}

#[test]
fn encoder_policy_is_maximum_ratio() {
    assert_eq!(BROTLI_QUALITY, 11);
    assert_eq!(BROTLI_LGWIN, 24);
}

#[test]
fn assemble_puts_payload_behind_header() {
    let h = Header::for_rgba(2, 1);
    assert_eq!(
        assemble_container(&h, &[7, 8, 9]),
        vec![0x51, 0x50, 0x49, 0x4D, 0, 0, 0, 2, 0, 0, 0, 1, 4, 1, 7, 8, 9]
    );
    assert_eq!(assemble_container(&h, &[]).len(), 14);
}

#[test]
fn container_from_compressed_passes_both_outcomes_on() {
    assert_eq!(
        container_from_compressed(1, 2, Ok(vec![5, 6])),
        Ok(vec![0x51, 0x50, 0x49, 0x4D, 0, 0, 0, 1, 0, 0, 0, 2, 4, 1, 5, 6])
    );
    assert_eq!(
        container_from_compressed(1, 2, Err("no".to_string())),
        Err(QpError::Compress("no".to_string()))
    );
}

#[test]
fn encode_red_two_by_one() {
    let file = encode_image(2, 1, &RED_2X1).unwrap();
    assert_eq!(
        &file[..14],
        &[0x51, 0x50, 0x49, 0x4D, 0x00, 0x00, 0x00, 0x02, 0x00, 0x00, 0x00, 0x01, 0x04, 0x01]
    );
    // What follows is the compressed form of the eight bytes.
    assert_eq!(&file[14..], &brotli_of(&RED_2X1)[..]);
    let mut back = Vec::new();
    brotli::BrotliDecompress(&mut &file[14..], &mut back).unwrap();
    assert_eq!(back, RED_2X1);
}

#[test]
fn decode_red_two_by_one_to_png() {
    let file = encode_image(2, 1, &RED_2X1).unwrap();
    let (pixels, format) = decode_image(&file, "red.png").unwrap();
    assert_eq!(format, OutputFormat::Png);
    assert_eq!(pixels, PixelBuffer::Rgba8 { width: 2, height: 1, data: RED_2X1.to_vec() });
    for px in pixels.data().chunks(4) {
        assert_eq!(&px[..3], &[255, 0, 0]);
        assert_eq!(px[3], 255);
    }
}

#[test]
fn decode_red_two_by_one_as_rgb() {
    let file = container(2, 1, 3, 1, &RED_2X1);
    let pixels = decode_pixels(&file).unwrap();
    assert_eq!(pixels, PixelBuffer::Rgb8 { width: 2, height: 1, data: vec![255, 0, 0, 255, 0, 0] });
}

#[test]
fn encode_rejects_wrong_sample_count() {
    assert_eq!(encode_image(2, 1, &RED_2X1[..7]), Err(QpError::SizeMismatch));
    assert_eq!(encode_image(2, 2, &RED_2X1), Err(QpError::SizeMismatch));
    assert_eq!(encode_image(0, 0, &RED_2X1), Err(QpError::SizeMismatch));
}

#[test]
fn round_trip_of_a_gradient() {
    let (w, h) = (37u32, 11u32);
    let rgba: Vec<u8> = (0..w * h * 4).map(|i| (i * 7 % 251) as u8).collect();
    let file = encode_image(w, h, &rgba).unwrap();
    assert_eq!(
        decode_pixels(&file),
        Ok(PixelBuffer::Rgba8 { width: w, height: h, data: rgba.clone() })
    );
    // The same payload under a three-channel header loses alpha only.
    let mut rgb_file = file.clone();
    rgb_file[12] = 3;
    let expected: Vec<u8> = rgba.chunks(4).flat_map(|p| p[..3].to_vec()).collect();
    assert_eq!(
        decode_pixels(&rgb_file),
        Ok(PixelBuffer::Rgb8 { width: w, height: h, data: expected })
    );
}

#[test]
fn round_trip_of_an_empty_image() {
    let file = encode_image(0, 3, &[]).unwrap();
    assert!(file.len() > 14);
    assert_eq!(decode_pixels(&file), Ok(PixelBuffer::Rgba8 { width: 0, height: 3, data: vec![] }));
}

#[test]
fn round_trip_of_a_larger_image() {
    let (w, h) = (256u32, 64u32);
    let rgba: Vec<u8> =
        (0..w * h * 4).map(|i| (i.wrapping_mul(2_654_435_761) >> 24) as u8).collect();
    let file = encode_image(w, h, &rgba).unwrap();
    let pixels = decode_pixels(&file).unwrap();
    assert_eq!(pixels.width(), w);
    assert_eq!(pixels.height(), h);
    assert_eq!(pixels.data(), &rgba[..]);
}

#[test]
fn decode_rejects_short_input() {
    assert_eq!(decode_pixels(&[]), Err(QpError::TruncatedHeader));
    assert_eq!(decode_pixels(b"QPIM\0\0\0\x01\0\0\0\x01\x04"), Err(QpError::TruncatedHeader));
}

#[test]
fn decode_rejects_wrong_magic_whatever_follows() {
    let mut file = encode_image(2, 1, &RED_2X1).unwrap();
    file[0] = b'X';
    assert_eq!(decode_pixels(&file), Err(QpError::BadMagic));
    assert_eq!(decode_image(&file, "out.png"), Err(QpError::BadMagic));
    let junk = vec![0u8; 64];
    assert_eq!(decode_pixels(&junk), Err(QpError::BadMagic));
}

#[test]
fn decode_rejects_unknown_compression_even_with_valid_payload() {
    for method in [0u8, 2, 255] {
        let file = container(2, 1, 4, method, &RED_2X1);
        assert_eq!(decode_pixels(&file), Err(QpError::UnsupportedCompression(method)));
    }
}

#[test]
fn decode_rejects_corrupt_payload() {
    let h = Header::for_rgba(2, 1);
    let e = decode_pixels(&assemble_container(&h, &[0xFF; 40])).unwrap_err();
    assert_eq!(e.kind(), ErrorKind::Decompress);
    // A header with nothing behind it.
    let e = decode_pixels(&h.to_bytes()).unwrap_err();
    assert_eq!(e.kind(), ErrorKind::Decompress);
    // A stream cut short.
    let whole = encode_image(2, 1, &RED_2X1).unwrap();
    let e = decode_pixels(&whole[..whole.len() - 1]).unwrap_err();
    assert_eq!(e.kind(), ErrorKind::Decompress);
    assert!(matches!(e, QpError::Decompress(_)));
}

#[test]
fn decode_rejects_size_mismatch() {
    // Declared 3x1, stored 2x1.
    assert_eq!(decode_pixels(&container(3, 1, 4, 1, &RED_2X1)), Err(QpError::SizeMismatch));
    // Declared 1x1, stored 2x1: no silent truncation.
    assert_eq!(decode_pixels(&container(1, 1, 4, 1, &RED_2X1)), Err(QpError::SizeMismatch));
    assert_eq!(decode_pixels(&container(1, 1, 3, 1, &RED_2X1)), Err(QpError::SizeMismatch));
    // Huge declared dimensions.
    assert_eq!(
        decode_pixels(&container(u32::MAX, u32::MAX, 4, 1, &RED_2X1)),
        Err(QpError::SizeMismatch)
    );
}

#[test]
fn decode_rejects_other_channel_counts() {
    for channels in [0u8, 1, 2, 5, 6, 100, 255] {
        let file = container(2, 1, channels, 1, &RED_2X1);
        assert_eq!(decode_pixels(&file), Err(QpError::UnsupportedChannels));
    }
    for channels in [3u8, 4] {
        assert!(decode_pixels(&container(2, 1, channels, 1, &RED_2X1)).is_ok());
    }
}

#[test]
fn pixels_from_decompressed_passes_both_outcomes_on() {
    let h = Header::for_rgba(1, 1);
    assert_eq!(
        pixels_from_decompressed(&h, Ok(vec![1, 2, 3, 4])),
        Ok(PixelBuffer::Rgba8 { width: 1, height: 1, data: vec![1, 2, 3, 4] })
    );
    assert_eq!(pixels_from_decompressed(&h, Ok(vec![1, 2, 3])), Err(QpError::SizeMismatch));
    assert_eq!(
        pixels_from_decompressed(&h, Err("bad".to_string())),
        Err(QpError::Decompress("bad".to_string()))
    );
}

#[test]
fn decode_image_selects_webp() {
    let file = encode_image(2, 1, &RED_2X1).unwrap();
    let (pixels, format) = decode_image(&file, "dir/out.webp").unwrap();
    assert_eq!(format, OutputFormat::WebP);
    assert_eq!(pixels.data(), &RED_2X1[..]);
}

#[test]
fn decode_image_fails_without_a_known_extension() {
    let file = encode_image(2, 1, &RED_2X1).unwrap();
    assert_eq!(decode_image(&file, "out"), Err(QpError::UnsupportedOutputFormat));
    assert_eq!(decode_image(&file, "out.xyz"), Err(QpError::UnsupportedOutputFormat));
    assert_eq!(decode_image(&file, ""), Err(QpError::UnsupportedOutputFormat));
}

#[test]
fn decode_image_reports_the_container_before_the_path() {
    let file = container(2, 1, 5, 1, &RED_2X1);
    assert_eq!(decode_image(&file, "out.xyz"), Err(QpError::UnsupportedChannels));
    assert_eq!(decode_image(&[], "out"), Err(QpError::TruncatedHeader));
}
