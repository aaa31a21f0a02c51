//! A library for converting truecolor raster images into a constrained
//! 8-bit indexed-color representation, and for managing palettes across
//! indexed-image files: extracting them, transplanting them onto other
//! files, and validating how they are embedded.
//!
//! The binary layout of the indexed-image files themselves, and the
//! decoding of truecolor formats, belong to external collaborators; this
//! crate calls them through the narrow trusted boundary in [`codec`] and
//! proves everything around those calls.

pub mod codec;
pub mod color;
pub mod convert;
pub mod error;
pub mod loader;
pub mod namer;
pub mod palette;
pub mod quantize;
pub mod transplant;
