//! The format that an output is serialized in: the one its file name asks for.

use crate::codec::format_from_extension;
use crate::codec::format_of_extension;
use crate::paths::is_jpeg_suffix;
use crate::paths::suffix;
use crate::paths::suffix_of;
use image::ImageFormat;
use vstd::prelude::*;

verus! {

/// The format that a file name asks for: that of its suffix, where it has one
/// that is known.
pub open spec fn encoding_for(name: Seq<char>) -> Option<ImageFormat> {
    match suffix_of(name) {
        Some(extension) => format_of_extension(extension),
        None => None,
    }
}

/// The format that `name` asks for, or `None` where its suffix is missing or
/// unknown. The suffixes `jpg` and `jpeg` are known.
pub fn format_for_name(name: &str) -> (format: Option<ImageFormat>)
    ensures
        format == encoding_for(name@),
        suffix_of(name@) matches Some(extension) && is_jpeg_suffix(extension) ==> format is Some,
{
    match suffix(name) {
        Some(extension) => format_from_extension(extension.as_str()),
        None => None,
    }
}

} // verus!
