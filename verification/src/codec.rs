use vstd::prelude::*;
use image::GenericImageView;

use crate::formats::{Detected, Format, spec_guess};

verus! {

#[verifier::external_type_specification]
#[verifier::external_body]
pub struct ExDynamicImage(image::DynamicImage);

/// The abstract pixel state a decoded image holds: everything about the
/// in-memory image (samples, dimensions, color layout), named but never
/// written out, so that contracts can say when two images are the same.
pub uninterp spec fn content_of(img: image::DynamicImage) -> Seq<u8>;

/// What decoding a byte buffer yields: the pixel state of the decoded image,
/// or nothing when the buffer is not parseable. A function of the bytes alone.
pub uninterp spec fn spec_decode(b: Seq<u8>) -> Option<Seq<u8>>;

/// The width of a pixel state.
pub uninterp spec fn spec_width(c: Seq<u8>) -> u32;

/// The height of a pixel state.
pub uninterp spec fn spec_height(c: Seq<u8>) -> u32;

/// The pixel state of the exact-fill resize of a pixel state to a target
/// size: scaled with the triangle filter so the smaller dimension matches,
/// then center-cropped on the other axis. A function of its arguments alone.
pub uninterp spec fn spec_fill(c: Seq<u8>, w: u32, h: u32) -> Seq<u8>;

/// The serialization of a pixel state in a container format: the encoded
/// bytes, or nothing when the encoder rejects the image. A function of its
/// arguments alone.
pub uninterp spec fn spec_encode(c: Seq<u8>, f: Format) -> Option<Seq<u8>>;

/// Relies on image::guess_format: it classifies the buffer by the first entry
/// of a fixed table of magic prefixes (PNG, JPEG, GIF89a/GIF87a, then WEBP,
/// TIFF, BMP, ICO, HDR and PNM) that prefixes the buffer, and fails when none
/// does. `spec_guess` states that table exactly.
#[verifier::external_body]
pub(crate) fn guess_format_bytes(bytes: &Vec<u8>) -> (r: Option<Detected>)
    ensures
        r == spec_guess(bytes@),
{
    match image::guess_format(bytes.as_slice()) {
        Ok(image::ImageFormat::PNG) => Some(Detected::Png),
        Ok(image::ImageFormat::JPEG) => Some(Detected::Jpeg),
        Ok(image::ImageFormat::GIF) => Some(Detected::Gif),
        Ok(_) => Some(Detected::Other),
        Err(_) => None,
    }
}

/// Relies on image::load_from_memory: it guesses the container from the same
/// magic table and decodes the buffer as that container; success and result
/// depend on the bytes alone. A buffer without a recognized magic prefix
/// never decodes, since the guess itself fails.
#[verifier::external_body]
pub(crate) fn decode_bytes(bytes: &Vec<u8>) -> (r: Option<image::DynamicImage>)
    ensures
        r is Some <==> spec_decode(bytes@) is Some,
        r matches Some(img) ==> spec_decode(bytes@) == Some(content_of(img)),
        spec_guess(bytes@) is None ==> r is None,
{
    image::load_from_memory(bytes.as_slice()).ok()
}

/// Relies on GenericImageView::width: a read of the image's width.
#[verifier::external_body]
pub(crate) fn image_width(img: &image::DynamicImage) -> (r: u32)
    ensures
        r == spec_width(content_of(*img)),
{
    img.width()
}

/// Relies on GenericImageView::height: a read of the image's height.
#[verifier::external_body]
pub(crate) fn image_height(img: &image::DynamicImage) -> (r: u32)
    ensures
        r == spec_height(content_of(*img)),
{
    img.height()
}

/// Relies on DynamicImage::resize_to_fill with the triangle filter: for
/// positive source and target dimensions it returns an image of exactly the
/// target size, scaled and center-cropped, and the result depends on the
/// source pixels and the targets alone. The two product bounds keep the
/// scaled intermediate dimension within u32 range, the one regime in which
/// the crate's own arithmetic neither clamps nor underflows.
#[verifier::external_body]
pub(crate) fn fill_resize(img: &image::DynamicImage, w: u32, h: u32) -> (r: image::DynamicImage)
    requires
        w > 0,
        h > 0,
        spec_width(content_of(*img)) > 0,
        spec_height(content_of(*img)) > 0,
        (spec_height(content_of(*img)) as int) * (w as int)
            <= (spec_width(content_of(*img)) as int) * 0xffff_ffff,
        (spec_width(content_of(*img)) as int) * (h as int)
            <= (spec_height(content_of(*img)) as int) * 0xffff_ffff,
    ensures
        content_of(r) == spec_fill(content_of(*img), w, h),
        spec_width(content_of(r)) == w,
        spec_height(content_of(r)) == h,
{
    img.resize_to_fill(w, h, image::FilterType::Triangle)
}

/// Relies on DynamicImage::write_to: serialization into a growable buffer is
/// a function of the image and the chosen container alone. The GIF encoder
/// asserts that the dimensions fit in sixteen bits, so that case is kept out.
#[verifier::external_body]
pub(crate) fn encode_image(img: &image::DynamicImage, format: Format) -> (r: Option<Vec<u8>>)
    requires
        format == Format::Gif ==> spec_width(content_of(*img)) <= 0xffff
            && spec_height(content_of(*img)) <= 0xffff,
    ensures
        r is Some <==> spec_encode(content_of(*img), format) is Some,
        r matches Some(v) ==> spec_encode(content_of(*img), format) == Some(v@),
{
    let target = match format {
        Format::Png => image::ImageFormat::PNG,
        Format::Jpeg => image::ImageFormat::JPEG,
        Format::Gif => image::ImageFormat::GIF,
    };
    let mut out: Vec<u8> = Vec::new();
    match img.write_to(&mut out, target) {
        Ok(()) => Some(out),
        Err(_) => None,
    }
}

} // verus!
