//! Decoding, exact-fill resizing and re-encoding of in-memory images.
//!
//! The library detects a container format from raw bytes, decodes the bytes
//! into an immutable pixel resource, and later produces resized re-encodings
//! of that resource in the same container format, together with a descriptor
//! of the result's dimensions, tag and byte size.

pub mod api;
pub mod codec;
pub mod formats;
pub mod resource;
