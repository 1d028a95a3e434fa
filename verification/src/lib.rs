//! Batch magnification of raster images.
//!
//! The crate holds the deciding half of an image upscaler: what is tried to
//! decode a file's content and in what order, how large an output becomes,
//! where it is saved and under what name, and what is reported for each
//! file. It magnifies the images itself. Reading files, running the codecs
//! and saving the outputs is left to the caller, whose answers the crate
//! takes step by step.
//!
//! - [`sizing`]: the magnification factor and its saturating arithmetic.
//! - [`paths`]: file names, suffixes and output paths, on paths as text.
//! - [`codec`]: the boundary to the `image` crate.
//! - [`raster`]: decoded images and their magnification.
//! - [`decoder`]: the chain of decoding strategies.
//! - [`encoder`]: the output format that a file name asks for.
//! - [`outcome`]: what is reported for a file.
//! - [`pipeline`]: one file from content to outcome.
//! - [`coordinator`]: what a whole run shares, and the run over a list of files.

pub mod codec;
pub mod coordinator;
pub mod decoder;
pub mod encoder;
pub mod outcome;
pub mod paths;
pub mod pipeline;
pub mod raster;
pub mod sizing;
