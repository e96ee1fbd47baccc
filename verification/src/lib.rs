//! A decoder for EXIF/TIFF metadata embedded in JPEG and PNG images.
//!
//! The library locates the TIFF structure inside an image buffer, walks its
//! Image File Directories (IFDs), decodes each tagged field according to the
//! TIFF/EXIF type system (including the inline-versus-offset storage rule),
//! and renders decoded values into human-readable strings.

pub mod arrays;
pub mod conversions;
pub mod exif;
pub mod formats;
pub mod image;
pub mod laws;
pub mod tags;
