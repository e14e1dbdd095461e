use vstd::prelude::*;

verus! {

/// The closed set of container formats this library supports. A detected
/// format outside this set is a terminal error, never silently coerced.
#[derive(Clone, Copy, Debug, PartialEq, Eq, Structural)]
pub enum Format {
    Png,
    Jpeg,
    Gif,
}

/// The outcome of container detection: one of the supported formats, or some
/// other container that the detector recognizes but the library refuses.
#[derive(Clone, Copy, Debug, PartialEq, Eq, Structural)]
pub enum Detected {
    Png,
    Jpeg,
    Gif,
    Other,
}

/// The externally visible format tag of a descriptor.
#[derive(Clone, Copy, Debug, PartialEq, Eq, Structural)]
pub enum Extension {
    Png,
    Jpg,
    Gif,
    UnsupportedImageFormat,
}

/// The error kinds of the two boundary operations.
#[derive(Clone, Copy, Debug, PartialEq, Eq, Structural)]
pub enum MirageError {
    /// The bytes are not a parseable image in any recognized format.
    DecodeError,
    /// The bytes carry a recognized container that is outside the supported set.
    UnsupportedFormat,
    /// A valid pixel image cannot be serialized in its recorded format.
    EncodeError,
    /// A degenerate resize target (zero or out of machine range) was requested.
    InvalidDimensions,
}

/// The PNG signature: 0x89 "PNG" CR LF 0x1a LF.
pub open spec fn is_png_magic(b: Seq<u8>) -> bool {
    &&& b.len() >= 8
    &&& b[0] == 0x89u8
    &&& b[1] == 0x50u8
    &&& b[2] == 0x4eu8
    &&& b[3] == 0x47u8
    &&& b[4] == 0x0du8
    &&& b[5] == 0x0au8
    &&& b[6] == 0x1au8
    &&& b[7] == 0x0au8
}

/// The JPEG start-of-image marker prefix.
pub open spec fn is_jpeg_magic(b: Seq<u8>) -> bool {
    &&& b.len() >= 3
    &&& b[0] == 0xffu8
    &&& b[1] == 0xd8u8
    &&& b[2] == 0xffu8
}

/// The GIF signature: "GIF89a" or "GIF87a".
pub open spec fn is_gif_magic(b: Seq<u8>) -> bool {
    &&& b.len() >= 6
    &&& b[0] == 0x47u8
    &&& b[1] == 0x49u8
    &&& b[2] == 0x46u8
    &&& b[3] == 0x38u8
    &&& (b[4] == 0x39u8 || b[4] == 0x37u8)
    &&& b[5] == 0x61u8
}

/// The remaining signatures the detector recognizes, none of them supported
/// here: WEBP ("RIFF"), TIFF (both byte orders), BMP ("BM"), ICO, Radiance
/// HDR ("#?RADIANCE"), and the PNM family ("P1" through "P7").
pub open spec fn is_other_magic(b: Seq<u8>) -> bool {
    ||| (b.len() >= 4 && b[0] == 0x52u8 && b[1] == 0x49u8 && b[2] == 0x46u8 && b[3] == 0x46u8)
    ||| (b.len() >= 4 && b[0] == 0x4du8 && b[1] == 0x4du8 && b[2] == 0x00u8 && b[3] == 0x2au8)
    ||| (b.len() >= 4 && b[0] == 0x49u8 && b[1] == 0x49u8 && b[2] == 0x2au8 && b[3] == 0x00u8)
    ||| (b.len() >= 2 && b[0] == 0x42u8 && b[1] == 0x4du8)
    ||| (b.len() >= 4 && b[0] == 0x00u8 && b[1] == 0x00u8 && b[2] == 0x01u8 && b[3] == 0x00u8)
    ||| (b.len() >= 10 && b[0] == 0x23u8 && b[1] == 0x3fu8 && b[2] == 0x52u8 && b[3] == 0x41u8
        && b[4] == 0x44u8 && b[5] == 0x49u8 && b[6] == 0x41u8 && b[7] == 0x4eu8
        && b[8] == 0x43u8 && b[9] == 0x45u8)
    ||| (b.len() >= 2 && b[0] == 0x50u8 && 0x31u8 <= b[1] && b[1] <= 0x37u8)
}

/// What container detection reports for a byte buffer: the first signature of
/// the detector's table that prefixes the buffer, or nothing. The signatures
/// above start with pairwise distinct leading bytes, so at most one of them
/// can match and the table's order does not matter.
pub open spec fn spec_guess(b: Seq<u8>) -> Option<Detected> {
    if is_png_magic(b) {
        Some(Detected::Png)
    } else if is_jpeg_magic(b) {
        Some(Detected::Jpeg)
    } else if is_gif_magic(b) {
        Some(Detected::Gif)
    } else if is_other_magic(b) {
        Some(Detected::Other)
    } else {
        None
    }
}

/// The format detector's contract: a supported format, or a terminal error.
pub open spec fn spec_detect(b: Seq<u8>) -> Result<Format, MirageError> {
    match spec_guess(b) {
        Some(Detected::Png) => Ok(Format::Png),
        Some(Detected::Jpeg) => Ok(Format::Jpeg),
        Some(Detected::Gif) => Ok(Format::Gif),
        Some(Detected::Other) => Err(MirageError::UnsupportedFormat),
        None => Err(MirageError::UnsupportedFormat),
    }
}

/// The total mapping from a detection outcome to the external tag, with the
/// explicit sentinel for recognized-but-unsupported containers.
pub open spec fn spec_extension(d: Detected) -> Extension {
    match d {
        Detected::Png => Extension::Png,
        Detected::Jpeg => Extension::Jpg,
        Detected::Gif => Extension::Gif,
        Detected::Other => Extension::UnsupportedImageFormat,
    }
}

/// The tag of a supported format, through the total mapping above.
pub open spec fn ext_of(f: Format) -> Extension {
    spec_extension(as_detected(f))
}

/// The embedding of the supported set into the detection outcomes.
pub open spec fn as_detected(f: Format) -> Detected {
    match f {
        Format::Png => Detected::Png,
        Format::Jpeg => Detected::Jpeg,
        Format::Gif => Detected::Gif,
    }
}

/// Format-to-tag dispatch over the closed set of detection outcomes.
pub fn extension(format: Detected) -> (e: Extension)
    ensures
        e == spec_extension(format),
{
    match format {
        Detected::Png => Extension::Png,
        Detected::Jpeg => Extension::Jpg,
        Detected::Gif => Extension::Gif,
        Detected::Other => Extension::UnsupportedImageFormat,
    }
}

/// The external tag of a supported format.
pub fn format_tag(format: Format) -> (e: Extension)
    ensures
        e == ext_of(format),
{
    match format {
        Format::Png => extension(Detected::Png),
        Format::Jpeg => extension(Detected::Jpeg),
        Format::Gif => extension(Detected::Gif),
    }
}

} // verus!
