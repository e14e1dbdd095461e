use vstd::prelude::*;

use crate::codec;
use crate::formats;
use crate::formats::{Detected, Extension, Format, MirageError};
use crate::resource::Image;

verus! {

/// The externally visible result record of a load or a resize: the byte size
/// of the serialized image, its format tag, and the pixel dimensions. A fresh
/// value is built on every call; it accompanies the resource it was derived
/// from, which the host addresses through its own opaque handle.
#[derive(Clone, Copy, Debug, PartialEq, Eq, Structural)]
pub struct Mirage {
    pub byte_size: usize,
    pub extension: Extension,
    pub height: u32,
    pub width: u32,
}

impl Mirage {
    /// Pure aggregation of a result record from its parts: the format's tag,
    /// the pixel dimensions, and the byte length of the serialized image.
    pub fn build(format: Format, width: u32, height: u32, byte_size: usize) -> (m: Mirage)
        ensures
            m == (Mirage { byte_size, extension: formats::ext_of(format), height, width }),
    {
        Mirage { byte_size, extension: formats::format_tag(format), height, width }
    }
}

/// The GIF encoder stores dimensions in sixteen bits; anything larger is
/// rejected as unencodable.
pub open spec fn gif_encodable(f: Format, w: u32, h: u32) -> bool {
    f == Format::Gif ==> w <= 0xffff && h <= 0xffff
}

/// The resize targets for which the scaled intermediate image stays within
/// u32 dimensions, the regime the resizer is specified in. Everyday targets
/// satisfy this; it fails only when target and source aspect ratios are
/// pathologically far apart.
pub open spec fn fill_in_range(c: Seq<u8>, w: u32, h: u32) -> bool {
    &&& (codec::spec_height(c) as int) * (w as int)
        <= (codec::spec_width(c) as int) * 0xffff_ffff
    &&& (codec::spec_width(c) as int) * (h as int)
        <= (codec::spec_height(c) as int) * 0xffff_ffff
}

/// The descriptor a successful load of `b` reports, given the format and the
/// decoded pixel state.
pub open spec fn spec_load_as(b: Seq<u8>, f: Format) -> Result<Mirage, MirageError> {
    match codec::spec_decode(b) {
        None => Err(MirageError::DecodeError),
        Some(c) => Ok(
            (Mirage {
                byte_size: b.len() as usize,
                extension: formats::ext_of(f),
                height: codec::spec_height(c),
                width: codec::spec_width(c),
            }),
        ),
    }
}

/// What loading a byte buffer yields. A recognized but unsupported container
/// is a terminal `UnsupportedFormat`, whether or not its pixels would decode;
/// bytes that no recognized container explains are a `DecodeError`; a
/// supported container whose pixels do not parse is a `DecodeError` too.
pub open spec fn spec_load(b: Seq<u8>) -> Result<Mirage, MirageError> {
    match formats::spec_guess(b) {
        Some(Detected::Png) => spec_load_as(b, Format::Png),
        Some(Detected::Jpeg) => spec_load_as(b, Format::Jpeg),
        Some(Detected::Gif) => spec_load_as(b, Format::Gif),
        Some(Detected::Other) => Err(MirageError::UnsupportedFormat),
        None => Err(MirageError::DecodeError),
    }
}

/// What resizing a resource with pixel state `c` and format `f` to the target
/// `w` by `h` yields: the re-encoded bytes of the exact-fill resize together
/// with their descriptor. Zero or out-of-range targets and a degenerate
/// source are rejected before any pixel work; a format that cannot hold the
/// result, or an encoder refusal, is an `EncodeError`.
pub open spec fn spec_resize(c: Seq<u8>, f: Format, w: u32, h: u32) -> Result<
    (Seq<u8>, Mirage),
    MirageError,
> {
    if w == 0 || h == 0 {
        Err(MirageError::InvalidDimensions)
    } else if codec::spec_width(c) == 0 || codec::spec_height(c) == 0 {
        Err(MirageError::InvalidDimensions)
    } else if !fill_in_range(c, w, h) {
        Err(MirageError::InvalidDimensions)
    } else if !gif_encodable(f, w, h) {
        Err(MirageError::EncodeError)
    } else {
        match codec::spec_encode(codec::spec_fill(c, w, h), f) {
            None => Err(MirageError::EncodeError),
            Some(out) => Ok(
                (
                    out,
                    (Mirage {
                        byte_size: out.len() as usize,
                        extension: formats::ext_of(f),
                        height: h,
                        width: w,
                    }),
                ),
            ),
        }
    }
}

/// The descriptor part of a load result.
pub open spec fn load_result(r: Result<(Mirage, Image), MirageError>) -> Result<
    Mirage,
    MirageError,
> {
    match r {
        Ok(p) => Ok(p.0),
        Err(e) => Err(e),
    }
}

/// A resize result with its byte buffer abstracted to the sequence it holds.
pub open spec fn resize_result(r: Result<(Vec<u8>, Mirage), MirageError>) -> Result<
    (Seq<u8>, Mirage),
    MirageError,
> {
    match r {
        Ok(p) => Ok((p.0@, p.1)),
        Err(e) => Err(e),
    }
}

/// Detects the container format of a byte buffer, independently of whether
/// the bytes also decode: a supported format, or `UnsupportedFormat` for any
/// other outcome of detection.
pub fn detect(bytes: &Vec<u8>) -> (r: Result<Format, MirageError>)
    ensures
        r == formats::spec_detect(bytes@),
{
    match codec::guess_format_bytes(bytes) {
        Some(Detected::Png) => Ok(Format::Png),
        Some(Detected::Jpeg) => Ok(Format::Jpeg),
        Some(Detected::Gif) => Ok(Format::Gif),
        _ => Err(MirageError::UnsupportedFormat),
    }
}

/// Loads an image from raw bytes: detects the container, decodes the pixels,
/// and reports the descriptor together with the immutable resource that later
/// resize calls reuse. The descriptor's byte size is the input length, and
/// its dimensions are the decoded image's.
pub fn from_bytes(bytes: &Vec<u8>) -> (r: Result<(Mirage, Image), MirageError>)
    ensures
        load_result(r) == spec_load(bytes@),
        r matches Ok(p) ==> codec::spec_decode(bytes@) == Some(p.1.content()),
        r matches Ok(p) ==> formats::spec_detect(bytes@) == Ok::<Format, MirageError>(p.1.fmt()),
{
    let guessed = codec::guess_format_bytes(bytes);
    let format = match guessed {
        Some(Detected::Png) => Format::Png,
        Some(Detected::Jpeg) => Format::Jpeg,
        Some(Detected::Gif) => Format::Gif,
        Some(Detected::Other) => {
            return Err(MirageError::UnsupportedFormat);
        },
        None => {
            return Err(MirageError::DecodeError);
        },
    };
    let img = match codec::decode_bytes(bytes) {
        Some(i) => i,
        None => {
            return Err(MirageError::DecodeError);
        },
    };
    let res = Image::create(img, format);
    let width = res.width();
    let height = res.height();
    let descriptor = Mirage::build(format, width, height, bytes.len());
    Ok((descriptor, res))
}

/// Resizes a resource's original decoded pixels to exactly `width` by
/// `height` (scale to fill, center crop) and re-encodes them in the format
/// recorded on the resource. The resource itself is read, never changed, so
/// repeated calls always start from the original pixels. Degenerate targets
/// fail fast; an encoder refusal is reported, never retried.
pub fn resize(res: &Image, width: u32, height: u32) -> (r: Result<
    (Vec<u8>, Mirage),
    MirageError,
>)
    ensures
        resize_result(r) == spec_resize(res.content(), res.fmt(), width, height),
{
    if width == 0 || height == 0 {
        return Err(MirageError::InvalidDimensions);
    }
    let sw = res.width();
    let sh = res.height();
    if sw == 0 || sh == 0 {
        return Err(MirageError::InvalidDimensions);
    }
    proof {
        assert((sh as int) * (width as int) <= 0xffff_ffff * 0xffff_ffff
            && (sw as int) * (height as int) <= 0xffff_ffff * 0xffff_ffff
            && (sw as int) * 0xffff_ffff <= 0xffff_ffff * 0xffff_ffff
            && (sh as int) * 0xffff_ffff <= 0xffff_ffff * 0xffff_ffff) by (nonlinear_arith)
            requires
                sw <= 0xffff_ffffu32,
                sh <= 0xffff_ffffu32,
                width <= 0xffff_ffffu32,
                height <= 0xffff_ffffu32,
        ;
    }
    let wide_ok = (sh as u64) * (width as u64) <= (sw as u64) * 0xffff_ffffu64;
    let tall_ok = (sw as u64) * (height as u64) <= (sh as u64) * 0xffff_ffffu64;
    if !(wide_ok && tall_ok) {
        return Err(MirageError::InvalidDimensions);
    }
    let format = res.format();
    if format == Format::Gif && (width > 0xffff || height > 0xffff) {
        return Err(MirageError::EncodeError);
    }
    let filled = codec::fill_resize(res.raw(), width, height);
    match codec::encode_image(&filled, format) {
        Some(out) => {
            let byte_size = out.len();
            let descriptor = Mirage::build(format, width, height, byte_size);
            Ok((out, descriptor))
        },
        None => Err(MirageError::EncodeError),
    }
}

/// Loading reports the input's own length as the byte size, and a resize of
/// the loaded resource back to the reported dimensions keeps exactly those
/// dimensions, while its byte size is the length of the re-encoded bytes
/// (which may differ from the input's length).
pub proof fn lemma_round_trip(b: Seq<u8>, f: Format)
    ensures
        spec_load(b) matches Ok(m) ==> m.byte_size == b.len() as usize,
        spec_load(b) matches Ok(m) ==> codec::spec_decode(b) matches Some(c) ==> spec_resize(
            c,
            f,
            m.width,
            m.height,
        ) matches Ok(p) ==> p.1.width == m.width && p.1.height == m.height && p.1.byte_size
            == p.0.len() as usize,
{
}

/// Exact-fill invariant: every successful resize yields a descriptor whose
/// dimensions are exactly the requested target, whatever the source's aspect
/// ratio.
pub proof fn lemma_exact_fill(c: Seq<u8>, f: Format, w: u32, h: u32)
    ensures
        spec_resize(c, f, w, h) matches Ok(p) ==> p.1.width == w && p.1.height == h,
{
}

/// Format preservation: the tag of every resize result of a loaded resource
/// equals the tag the load itself reported, across any number of resizes.
pub proof fn lemma_format_preserved(b: Seq<u8>, w: u32, h: u32)
    ensures
        spec_load(b) matches Ok(m) ==> formats::spec_detect(b) matches Ok(f)
            ==> codec::spec_decode(b) matches Some(c) ==> spec_resize(c, f, w, h) matches Ok(p)
            ==> p.1.extension == m.extension,
{
}

/// Re-decode independence: a resize outcome is a function of the stored
/// resource and the targets alone. Two resizes of the same resource with the
/// same targets agree exactly, however many other resizes come between: each
/// starts from the original decoded pixels, so there is no cumulative
/// degradation.
pub proof fn lemma_resize_independent(
    res: Image,
    w: u32,
    h: u32,
    r1: Result<(Seq<u8>, Mirage), MirageError>,
    r2: Result<(Seq<u8>, Mirage), MirageError>,
)
    ensures
        (r1 == spec_resize(res.content(), res.fmt(), w, h) && r2 == spec_resize(
            res.content(),
            res.fmt(),
            w,
            h,
        )) ==> r1 == r2,
{
}

/// Garbage rejection: bytes without any recognized container signature are a
/// `DecodeError`, and so are bytes of a supported container whose pixels do
/// not parse.
pub proof fn lemma_garbage_rejected(b: Seq<u8>)
    ensures
        formats::spec_guess(b) is None ==> spec_load(b) == Err::<Mirage, MirageError>(
            MirageError::DecodeError,
        ),
        formats::spec_guess(b) matches Some(d) ==> d != Detected::Other
            ==> codec::spec_decode(b) is None ==> spec_load(b) == Err::<Mirage, MirageError>(
            MirageError::DecodeError,
        ),
{
}

/// Format rejection: bytes carrying a recognized but unsupported container
/// signature are an `UnsupportedFormat`, never a `DecodeError`.
pub proof fn lemma_unsupported_rejected(b: Seq<u8>)
    ensures
        formats::spec_guess(b) == Some(Detected::Other) ==> spec_load(b) == Err::<
            Mirage,
            MirageError,
        >(MirageError::UnsupportedFormat),
{
}

} // verus!
