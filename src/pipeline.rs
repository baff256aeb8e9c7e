//! The whole merge: format check, standardization, interleaving and assembly
//! of the output image.
use vstd::prelude::*;
use crate::dims::smallest_dim;
use crate::output::{FloatingImage, ImageDataErrors};
use crate::pixels::interleaved;
use crate::raster::{combine_images, resample_fits, standardise_size, standardized, Raster};

verus! {

#[verifier::external_type_specification]
#[verifier::external_body]
pub struct ExImageFormat(image::ImageFormat);

/// Relies on the `PartialEq` that `image::ImageFormat` derives: it is an enum
/// of unit variants, so two formats compare equal exactly when they are the
/// same variant.
#[verifier::external_body]
fn same_format(format1: &image::ImageFormat, format2: &image::ImageFormat) -> (r: bool)
    ensures
        r == (*format1 == *format2),
{
    format1 == format2
}

/// The pixels of a successful merge of `img1` and `img2`: both standardized
/// to the selected dimensions, then interleaved pixel by pixel.
pub open spec fn merged_pixels(img1: Raster, img2: Raster) -> Seq<u8> {
    interleaved(
        standardized(img1, smallest_dim(img1.dims(), img2.dims())),
        standardized(img2, smallest_dim(img1.dims(), img2.dims())),
    )
}

/// Merges two decoded images into an output image named `output`. Fails with
/// `DifferentImageFormats`, before any resampling, when the formats differ;
/// otherwise the output has the selected dimensions and the interleaved pixels.
pub fn merge_images(
    img1: Raster,
    format1: image::ImageFormat,
    img2: Raster,
    format2: image::ImageFormat,
    output: String,
) -> (r: Result<FloatingImage, ImageDataErrors>)
    requires
        img1.wf(),
        img2.wf(),
        resample_fits(img1, img2),
    ensures
        r is Err <==> format1 != format2,
        r is Err ==> r == Err::<FloatingImage, ImageDataErrors>(
            ImageDataErrors::DifferentImageFormats,
        ),
        r is Ok ==> (r->Ok_0.width, r->Ok_0.height) == smallest_dim(img1.dims(), img2.dims())
            && r->Ok_0.name == output && r->Ok_0.data@ == merged_pixels(img1, img2),
{
    if !same_format(&format1, &format2) {
        return Err(ImageDataErrors::DifferentImageFormats);
    }
    let (img1, img2) = standardise_size(img1, img2);
    let mut out = FloatingImage::new(img1.width, img1.height, output);
    let combined_data = combine_images(img1, img2);
    match out.set_data(combined_data) {
        Ok(()) => Ok(out),
        Err(e) => Err(e),
    }
}

} // verus!
