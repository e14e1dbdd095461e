use vstd::prelude::*;

use crate::codec;
use crate::formats::Format;

verus! {

/// A decoded pixel image together with its detected container format. The
/// pair is set at creation and never changes: no method mutates a resource,
/// so any number of resize calls read the same original pixels. The host
/// owns the value (typically behind a reference count) and addresses it
/// through whatever opaque handle it chooses; the library never frees or
/// replaces it.
pub struct Image {
    pub(crate) img: image::DynamicImage,
    pub(crate) format: Format,
}

impl Image {
    /// The abstract pixel state this resource holds.
    pub closed spec fn content(self) -> Seq<u8> {
        codec::content_of(self.img)
    }

    /// The container format recorded at creation.
    pub closed spec fn fmt(self) -> Format {
        self.format
    }

    /// The decoded pixel image itself, for the resizer and the encoder.
    pub(crate) fn raw(&self) -> (r: &image::DynamicImage)
        ensures
            codec::content_of(*r) == self.content(),
    {
        &self.img
    }

    /// Pure constructor: binds a decoded image to its detected format.
    pub(crate) fn create(img: image::DynamicImage, format: Format) -> (r: Image)
        ensures
            r.content() == codec::content_of(img),
            r.fmt() == format,
    {
        Image { img, format }
    }

    /// The recorded container format.
    pub fn format(&self) -> (f: Format)
        ensures
            f == self.fmt(),
    {
        self.format
    }

    /// The width of the decoded pixel image.
    pub fn width(&self) -> (w: u32)
        ensures
            w == codec::spec_width(self.content()),
    {
        codec::image_width(&self.img)
    }

    /// The height of the decoded pixel image.
    pub fn height(&self) -> (h: u32)
        ensures
            h == codec::spec_height(self.content()),
    {
        codec::image_height(&self.img)
    }
}

} // verus!
