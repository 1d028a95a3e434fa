//! The boundary to the `image` crate.
//!
//! Everything here is believed, not proved: the crate's types are declared
//! opaque, the results of its table lookups and accessors are given names,
//! and each function in use has one wrapper whose contract says what its
//! source shows. The crate's decoders and encoders are not here: they are run
//! by the caller, who answers for what they do with a damaged file.

use image::ColorType;
use image::DynamicImage;
use image::GenericImageView;
use crate::paths::is_jpeg_suffix;
use image::ImageFormat;
use vstd::prelude::*;

verus! {

/// `image::DynamicImage`: a decoded raster of any supported channel layout.
#[verifier::external_type_specification]
#[verifier::external_body]
pub struct ExDynamicImage(image::DynamicImage);

/// `image::ImageFormat`: one of the container formats the crate knows.
#[verifier::external_type_specification]
#[verifier::external_body]
pub struct ExImageFormat(image::ImageFormat);

/// `image::ColorType`: the channel layout of a raster.
#[verifier::external_type_specification]
#[verifier::external_body]
pub struct ExColorType(image::ColorType);

/// Width and height of a raster, as `GenericImageView::dimensions` reports them.
pub uninterp spec fn pixel_dimensions(image: DynamicImage) -> (u32, u32);

/// The channel layout of a raster, as `DynamicImage::color` reports it.
pub uninterp spec fn pixel_layout(image: DynamicImage) -> ColorType;

/// The format that `image::guess_format` reads off the leading bytes, if any.
pub uninterp spec fn detected_format(bytes: Seq<u8>) -> Option<ImageFormat>;

/// The format that `ImageFormat::from_extension` assigns to a file-name suffix, if any.
pub uninterp spec fn format_of_extension(extension: Seq<char>) -> Option<ImageFormat>;

/// Bytes that resizing may need for one pixel: four channels of 32-bit samples.
pub const RESIZE_BYTES_PER_PIXEL: u128 = 16;

/// The longest side, in pixels, that resizing is asked for: 2 to the power of 20.
pub const RESIZE_SIDE_LIMIT: u32 = 1_048_576;

/// Whether a raster of `width` by `height` is within what resizing is asked
/// for: no side beyond the limit, and at the most bytes per pixel no more
/// bytes than a vector can hold.
pub open spec fn resize_fits(width: nat, height: nat) -> bool {
    &&& width <= RESIZE_SIDE_LIMIT
    &&& height <= RESIZE_SIDE_LIMIT
    &&& RESIZE_BYTES_PER_PIXEL * width * height <= isize::MAX
}

/// `GenericImageView::dimensions` on a `DynamicImage`: its width and height.
#[verifier::external_body]
pub(crate) fn dimensions_of(image: &DynamicImage) -> (size: (u32, u32))
    ensures
        size == pixel_dimensions(*image),
{
    image.dimensions()
}

/// `DynamicImage::color`: the channel layout that goes with the raster's variant.
#[verifier::external_body]
pub(crate) fn layout_of(image: &DynamicImage) -> (layout: ColorType)
    ensures
        layout == pixel_layout(*image),
{
    image.color()
}

/// `image::guess_format`: compares the leading bytes with a table of signatures and
/// fails when none matches. Only whether and which format was found is kept.
#[verifier::external_body]
pub(crate) fn detect_format(bytes: &[u8]) -> (found: Option<ImageFormat>)
    ensures
        found == detected_format(bytes@),
{
    image::guess_format(bytes).ok()
}

/// `DynamicImage::resize_exact` with the filter `Lanczos3`: a new raster of exactly
/// the given width and height, in the channel layout of the source. The pixel
/// values come from floating-point arithmetic and nothing is claimed of them.
///
/// The call is kept to where it returns:
/// - Its buffers come from `image::ImageBuffer::new`, which panics on a length
///   beyond a vector's; the byte bound keeps every one of them below that.
/// - It places each output pixel in the source with 32-bit floats and divides
///   the filter's weights by their sum; a sum of zero makes the samples
///   not-a-number and the conversion back to integers panics. With no side
///   beyond 2^20 every pixel index is exact as a float and every centre is off
///   by an eighth of a pixel at the most. Enlarging lays the filter over three
///   source pixels to either side of the centre, so the nearest source pixel
///   lies within 0.63 of it and weighs more than 0.43, each side adds at most
///   one negative weight, above -0.15, and the sum stays above 0.13.
#[verifier::external_body]
pub(crate) fn resize_lanczos3(image: &DynamicImage, width: u32, height: u32) -> (resized:
    DynamicImage)
    requires
        pixel_dimensions(*image).0 <= width,
        pixel_dimensions(*image).1 <= height,
        resize_fits(width as nat, height as nat),
    ensures
        pixel_dimensions(resized) == (width, height),
        pixel_layout(resized) == pixel_layout(*image),
{
    image.resize_exact(width, height, image::imageops::FilterType::Lanczos3)
}

/// `ImageFormat::from_extension`: looks the suffix up, ignoring ASCII case, in the
/// crate's table of known suffixes. The table holds `jpg` and `jpeg`.
#[verifier::external_body]
pub(crate) fn format_from_extension(extension: &str) -> (format: Option<ImageFormat>)
    ensures
        format == format_of_extension(extension@),
        is_jpeg_suffix(extension@) ==> format is Some,
{
    ImageFormat::from_extension(extension)
}

} // verus!
