//! The QP image container: a fixed 14-byte header followed by a
//! Brotli-compressed RGBA8 pixel buffer.
//!
//! The crate turns raw pixels into container bytes and container bytes back
//! into pixels. Reading and writing files, and the raster formats on either
//! side of the container, are the caller's business.

pub mod error;
pub mod header;
pub mod pixels;
pub mod compress;
pub mod codec;
pub mod format;
