//! Batch application of a fixed catalog of image effects.
//!
//! The library holds everything that can be reasoned about without touching
//! the filesystem: deriving a safe output name from an input path, building
//! output paths, the fixed effect catalog, and applying each effect to an
//! in-memory RGBA image through the photon_rs pixel transforms. Reading a
//! directory, decoding image files and writing the results back to disk is
//! left to the binary around the library.

pub mod sanitize;
pub mod stem;
pub mod paths;
pub mod raster;
pub mod photon_api;
pub mod effects;
pub mod ops;
pub mod batch;
pub mod cli;
