//! Numeric and asset-decoding core for a retro renderer front end.
//!
//! This crate holds the palette store and the indexed-texture decoder:
//! the byte-exact logic that turns 8-bit palette-indexed bitmaps into
//! RGBA pixel buffers ready for upload to the graphics layer.

pub mod palette;
pub mod texture;
