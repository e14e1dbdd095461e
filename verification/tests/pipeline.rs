use image::GenericImageView;
use image::Pixel;

use mirage::api::{detect, from_bytes, resize};
use mirage::formats::{Detected, Extension, Format, MirageError, extension, format_tag};

fn encode(img: image::DynamicImage, fmt: image::ImageOutputFormat) -> Vec<u8> {
    let mut out = Vec::new();
    img.write_to(&mut out, fmt).unwrap();
    out
}

/// A 100 by 50 image whose left half is red and right half is blue.
fn split_rgb_100x50() -> image::DynamicImage {
    let buf = image::ImageBuffer::from_fn(100, 50, |x, _y| {
        if x < 50 {
            image::Rgb([255u8, 0u8, 0u8])
        } else {
            image::Rgb([0u8, 0u8, 255u8])
        }
    });
    image::DynamicImage::ImageRgb8(buf)
}

fn split_png_100x50() -> Vec<u8> {
    encode(split_rgb_100x50(), image::ImageOutputFormat::PNG)
}

fn load_err(bytes: &Vec<u8>) -> MirageError {
    match from_bytes(bytes) {
        Err(e) => e,
        Ok(_) => panic!("expected an error"),
    }
}

#[test]
fn load_reports_dimensions_tag_and_size() {
    let bytes = split_png_100x50();
    let (desc, _res) = from_bytes(&bytes).unwrap();
    assert_eq!(desc.width, 100);
    assert_eq!(desc.height, 50);
    assert_eq!(desc.extension, Extension::Png);
    assert_eq!(desc.byte_size, bytes.len());
}

#[test]
fn resize_center_crops_to_exact_fill() {
    let bytes = split_png_100x50();
    let (_desc, res) = from_bytes(&bytes).unwrap();
    let (out, d2) = resize(&res, 50, 50).unwrap();
    assert_eq!(d2.width, 50);
    assert_eq!(d2.height, 50);
    assert_eq!(d2.extension, Extension::Png);
    assert_eq!(d2.byte_size, out.len());

    let img = image::load_from_memory(&out).unwrap();
    assert_eq!(img.dimensions(), (50, 50));
    // The middle 50 columns of the source survive: red on the left, blue on
    // the right, and no letterbox border in any corner.
    let left = img.get_pixel(5, 25);
    assert!(left.channels()[0] > 200 && left.channels()[2] < 60);
    let right = img.get_pixel(45, 25);
    assert!(right.channels()[2] > 200 && right.channels()[0] < 60);
    let corner = img.get_pixel(0, 0);
    assert!(corner.channels()[0] > 200 && corner.channels()[2] < 60);
}

#[test]
fn round_trip_keeps_dimensions() {
    let bytes = split_png_100x50();
    let (desc, res) = from_bytes(&bytes).unwrap();
    assert_eq!(desc.byte_size, bytes.len());
    let (out, d2) = resize(&res, desc.width, desc.height).unwrap();
    assert_eq!(d2.width, desc.width);
    assert_eq!(d2.height, desc.height);
    assert_eq!(d2.byte_size, out.len());
    assert_eq!(d2.extension, desc.extension);
}

#[test]
fn garbage_bytes_are_a_decode_error() {
    let bytes: Vec<u8> = vec![1, 2, 3, 4, 5, 6, 7, 8, 9, 10, 11, 12];
    assert_eq!(load_err(&bytes), MirageError::DecodeError);
}

#[test]
fn truncated_supported_container_is_a_decode_error() {
    // A PNG signature with nothing behind it: detected, but not parseable.
    let bytes: Vec<u8> = vec![0x89, 0x50, 0x4e, 0x47, 0x0d, 0x0a, 0x1a, 0x0a, 0x00];
    assert_eq!(load_err(&bytes), MirageError::DecodeError);
}

#[test]
fn bmp_signature_is_unsupported_not_decode_error() {
    let mut bytes: Vec<u8> = vec![0x42, 0x4d];
    bytes.extend(std::iter::repeat(0u8).take(32));
    assert_eq!(load_err(&bytes), MirageError::UnsupportedFormat);
}

#[test]
fn decodable_bmp_is_unsupported() {
    let bytes = encode(split_rgb_100x50(), image::ImageOutputFormat::BMP);
    // The pixels decode, yet the container stays outside the supported set.
    assert!(image::load_from_memory(&bytes).is_ok());
    assert_eq!(load_err(&bytes), MirageError::UnsupportedFormat);
}

#[test]
fn webp_signature_is_unsupported() {
    let mut bytes: Vec<u8> = b"RIFF".to_vec();
    bytes.extend(std::iter::repeat(0u8).take(16));
    assert_eq!(load_err(&bytes), MirageError::UnsupportedFormat);
}

#[test]
fn detect_classifies_by_content() {
    let png = split_png_100x50();
    assert_eq!(detect(&png).unwrap(), Format::Png);
    let garbage: Vec<u8> = vec![9, 9, 9, 9];
    assert_eq!(detect(&garbage).unwrap_err(), MirageError::UnsupportedFormat);
    let bmp: Vec<u8> = vec![0x42, 0x4d, 0, 0, 0, 0];
    assert_eq!(detect(&bmp).unwrap_err(), MirageError::UnsupportedFormat);
}

#[test]
fn zero_targets_fail_fast() {
    let bytes = split_png_100x50();
    let (_desc, res) = from_bytes(&bytes).unwrap();
    assert_eq!(resize(&res, 0, 10).unwrap_err(), MirageError::InvalidDimensions);
    assert_eq!(resize(&res, 10, 0).unwrap_err(), MirageError::InvalidDimensions);
}

#[test]
fn extension_dispatch_is_total() {
    assert_eq!(extension(Detected::Png), Extension::Png);
    assert_eq!(extension(Detected::Jpeg), Extension::Jpg);
    assert_eq!(extension(Detected::Gif), Extension::Gif);
    assert_eq!(extension(Detected::Other), Extension::UnsupportedImageFormat);
    assert_eq!(format_tag(Format::Jpeg), Extension::Jpg);
}
