use vstd::prelude::*;

use image::imageops::FilterType;
use image::DynamicImage;

verus! {

/// A decoded image, carried through unread but for its size.
#[verifier::external_type_specification]
#[verifier::external_body]
pub struct ExDynamicImage(DynamicImage);

/// What an image holds besides its pixels: its width and height in pixels.
pub uninterp spec fn image_dimensions(image: &DynamicImage) -> (u32, u32);

/// The size that `image::DynamicImage::resize` gives an image of `width` by `height`
/// pixels resized within `max_width` by `max_height` (computed in floating point by
/// `image`'s `resize_dimensions`).
pub uninterp spec fn fitted_dimensions(width: u32, height: u32, max_width: u32, max_height: u32) -> (
    u32,
    u32,
);

/// Whether `size` fits within the bounds and is at least one pixel each way.
pub open spec fn fits_within(size: (u32, u32), max_width: u32, max_height: u32) -> bool {
    1 <= size.0 <= max_width && 1 <= size.1 <= max_height
}

/// Resizes an image with `image::DynamicImage::resize` and its triangle (linear)
/// filter. Trusted: the result's size is named by `fitted_dimensions` of the image's
/// size and the bounds. The `image` source documents, and its code shows, that the
/// size keeps the aspect ratio and is the largest that fits the bounds, at least one
/// pixel each way: so it fits where both bounds are at least one, an image already
/// of the bounds' size keeps it, and a square image in square bounds fills them.
#[verifier::external_body]
fn resize_triangle(image: &DynamicImage, max_width: u32, max_height: u32) -> (res: DynamicImage)
    ensures
        image_dimensions(&res) == fitted_dimensions(
            image_dimensions(image).0,
            image_dimensions(image).1,
            max_width,
            max_height,
        ),
        1 <= max_width && 1 <= max_height ==> fits_within(
            image_dimensions(&res),
            max_width,
            max_height,
        ),
        image_dimensions(image) == (max_width, max_height) ==> image_dimensions(&res) == (
            max_width,
            max_height,
        ),
        1 <= image_dimensions(image).0 && image_dimensions(image).0 == image_dimensions(image).1 && 1
            <= max_width && max_width == max_height ==> image_dimensions(&res) == (
            max_width,
            max_height,
        ),
{
    image.resize(max_width, max_height, FilterType::Triangle)
}

/// Resizes images to fit within a width and a height.
#[derive(Debug, Clone)]
pub struct ThumbnailProcessor {
    width: u32,
    height: u32,
}

impl ThumbnailProcessor {
    /// The largest width of a thumbnail.
    pub closed spec fn spec_width(&self) -> u32 {
        self.width
    }

    /// The largest height of a thumbnail.
    pub closed spec fn spec_height(&self) -> u32 {
        self.height
    }

    /// A processor for thumbnails of at most `width` by `height` pixels.
    pub fn new(width: u32, height: u32) -> (res: ThumbnailProcessor)
        ensures
            res.spec_width() == width,
            res.spec_height() == height,
    {
        ThumbnailProcessor { width, height }
    }

    /// A processor for thumbnails of at most 64 by 64 pixels.
    pub fn default_64x64() -> (res: ThumbnailProcessor)
        ensures
            res.spec_width() == 64,
            res.spec_height() == 64,
    {
        ThumbnailProcessor { width: 64, height: 64 }
    }

    /// The largest width of a thumbnail.
    pub fn width(&self) -> (res: u32)
        ensures
            res == self.spec_width(),
    {
        self.width
    }

    /// The largest height of a thumbnail.
    pub fn height(&self) -> (res: u32)
        ensures
            res == self.spec_height(),
    {
        self.height
    }

    /// The thumbnail of an image: the image scaled, aspect kept, to the largest size
    /// that fits within this processor's width and height; a square image gets
    /// exactly a square processor's size (64 by 64 for `default_64x64`).
    pub fn make_thumbnail(&self, image: &DynamicImage) -> (res: DynamicImage)
        ensures
            image_dimensions(&res) == fitted_dimensions(
                image_dimensions(image).0,
                image_dimensions(image).1,
                self.spec_width(),
                self.spec_height(),
            ),
            1 <= self.spec_width() && 1 <= self.spec_height() ==> fits_within(
                image_dimensions(&res),
                self.spec_width(),
                self.spec_height(),
            ),
            1 <= image_dimensions(image).0 && image_dimensions(image).0 == image_dimensions(image).1
                && 1 <= self.spec_width() && self.spec_width() == self.spec_height()
                ==> image_dimensions(&res) == (self.spec_width(), self.spec_height()),
    {
        resize_triangle(image, self.width, self.height)
    }
}

} // verus!
