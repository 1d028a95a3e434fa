//! Decoded rasters and their magnification.

use crate::codec::dimensions_of;
use crate::codec::layout_of;
use crate::codec::pixel_layout;
use crate::codec::pixel_dimensions;
use crate::codec::resize_lanczos3;
use crate::codec::resize_fits;
use crate::codec::RESIZE_BYTES_PER_PIXEL;
use crate::codec::RESIZE_SIDE_LIMIT;
use crate::outcome::oversized_reason;
use crate::outcome::ErrorKind;
use crate::outcome::PipelineError;
use crate::sizing::lemma_magnified_not_smaller;
use crate::sizing::magnified;
use crate::sizing::MagnificationFactor;
use image::ColorType;
use image::DynamicImage;
use vstd::prelude::*;
use vstd::string::*;

verus! {

/// A decoded raster held in memory: width, height, channel layout and pixels.
#[derive(Debug)]
pub struct ImageBuffer {
    pixels: DynamicImage,
}

impl View for ImageBuffer {
    type V = DynamicImage;

    closed spec fn view(&self) -> DynamicImage {
        self.pixels
    }
}

/// Whether a raster of `width` by `height` is within what resizing is asked for.
pub fn can_resize_to(width: u32, height: u32) -> (fits: bool)
    ensures
        fits == resize_fits(width as nat, height as nat),
{
    if width > RESIZE_SIDE_LIMIT || height > RESIZE_SIDE_LIMIT {
        return false;
    }
    let limit = isize::MAX as u128;
    let row = RESIZE_BYTES_PER_PIXEL * (width as u128);
    assert(row * height <= 16 * 0xffff_ffff * 0xffff_ffff) by (nonlinear_arith)
        requires
            row <= 16 * 0xffff_ffff,
            height <= 0xffff_ffff,
    ;
    row * (height as u128) <= limit
}

impl ImageBuffer {
    /// The number of pixel columns.
    pub open spec fn width(&self) -> nat {
        pixel_dimensions(self@).0 as nat
    }

    /// The number of pixel rows.
    pub open spec fn height(&self) -> nat {
        pixel_dimensions(self@).1 as nat
    }

    /// The channel layout of the pixels.
    pub open spec fn layout(&self) -> ColorType {
        pixel_layout(self@)
    }

    /// Whether the magnification of this raster by `factor` is within what
    /// resizing is asked for.
    pub open spec fn can_magnify(&self, factor: nat) -> bool {
        resize_fits(magnified(self.width(), factor), magnified(self.height(), factor))
    }

    /// The buffer that holds `pixels`.
    pub fn new(pixels: DynamicImage) -> (buffer: ImageBuffer)
        ensures
            buffer@ == pixels,
    {
        ImageBuffer { pixels }
    }

    /// The pixels, handed back.
    pub fn into_inner(self) -> (pixels: DynamicImage)
        ensures
            pixels == self@,
    {
        self.pixels
    }

    /// The pixels, lent out.
    pub fn pixels(&self) -> (pixels: &DynamicImage)
        ensures
            *pixels == self@,
    {
        &self.pixels
    }

    /// Width and height in pixels.
    pub fn dimensions(&self) -> (size: (u32, u32))
        ensures
            size.0 == self.width(),
            size.1 == self.height(),
    {
        dimensions_of(&self.pixels)
    }

    /// The channel layout of the pixels.
    pub fn color(&self) -> (layout: ColorType)
        ensures
            layout == self.layout(),
    {
        layout_of(&self.pixels)
    }

    /// This raster magnified by `factor`: each dimension is the source dimension
    /// times the factor, saturating at `u32::MAX`; a dimension of zero stays zero;
    /// the channel layout is kept. Fails, with `ErrorKind::Resample`, exactly
    /// where the result would be beyond what resizing is asked for.
    pub fn resample(&self, factor: &MagnificationFactor) -> (outcome: Result<
        ImageBuffer,
        PipelineError,
    >)
        ensures
            outcome is Ok <==> self.can_magnify(factor@),
            outcome matches Ok(magnified_image) ==> {
                &&& magnified_image.width() == magnified(self.width(), factor@)
                &&& magnified_image.height() == magnified(self.height(), factor@)
                &&& magnified_image.layout() == self.layout()
            },
            outcome matches Err(error) ==> error.kind == ErrorKind::Resample && error.detail@
                == oversized_reason(),
    {
        let (width, height) = self.dimensions();
        let (target_width, target_height) = factor.target_dimensions(width, height);
        if !can_resize_to(target_width, target_height) {
            return Err(
                PipelineError::new(
                    ErrorKind::Resample,
                    String::from_str("the magnified image is too large to resample"),
                ),
            );
        }
        let scale = factor.get();
        proof {
            lemma_magnified_not_smaller(width as nat, scale as nat);
            lemma_magnified_not_smaller(height as nat, scale as nat);
        }
        let pixels = resize_lanczos3(&self.pixels, target_width, target_height);
        Ok(ImageBuffer { pixels })
    }
}

} // verus!
