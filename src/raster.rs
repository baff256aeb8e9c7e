//! Decoded RGBA8 rasters and their standardization to common dimensions.
use vstd::prelude::*;
use crate::dims::{get_smallest_dim, smallest_dim};
use crate::output::capacity_of;
use crate::pixels::{alternate_pixels, interleaved};

verus! {

/// A decoded image: `width` by `height` pixels of 4 bytes (RGBA, 8 bits per
/// channel), row-major, each pixel contiguous.
pub struct Raster {
    pub width: u32,
    pub height: u32,
    pub pixels: Vec<u8>,
}

impl Raster {
    /// Positive dimensions and a buffer of exactly `width * height * 4` bytes.
    pub open spec fn wf(&self) -> bool {
        &&& self.width > 0
        &&& self.height > 0
        &&& self.pixels@.len() == capacity_of(self.width, self.height)
        &&& capacity_of(self.width, self.height) <= isize::MAX
    }

    pub open spec fn dims(&self) -> (u32, u32) {
        (self.width, self.height)
    }

    /// A raster over `pixels`, or `None` when a dimension is zero or the
    /// buffer does not hold exactly `width * height` pixels (a buffer never
    /// exceeds `isize::MAX` bytes).
    pub fn from_rgba(width: u32, height: u32, pixels: Vec<u8>) -> (r: Option<Raster>)
        ensures
            r is Some <==> (width > 0 && height > 0 && pixels@.len() == capacity_of(width, height)
                && pixels@.len() <= isize::MAX),
            r is Some ==> r->0.wf() && r->0.width == width && r->0.height == height
                && r->0.pixels@ == pixels@,
    {
        if width == 0 || height == 0 {
            return None;
        }
        let len = pixels.len();
        if len > isize::MAX as usize {
            return None;
        }
        proof {
            if len as int == capacity_of(width, height) {
                lemma_quotients_of_len(len as int, width as int, height as int);
            }
        }
        if len % 4 != 0 || (len / 4) as u64 / width as u64 != height as u64
            || (len / 4) as u64 % width as u64 != 0 {
            return None;
        }
        proof {
            lemma_len_from_quotients(len as int, width as int, height as int);
        }
        Some(Raster { width, height, pixels })
    }
}

proof fn lemma_quotients_of_len(len: int, w: int, h: int)
    requires
        0 < w,
        0 < h,
        len == w * h * 4,
    ensures
        len % 4 == 0,
        (len / 4) / w == h,
        (len / 4) % w == 0,
{
    vstd::arithmetic::div_mod::lemma_fundamental_div_mod_converse(len, 4, w * h, 0);
    vstd::arithmetic::div_mod::lemma_fundamental_div_mod_converse(w * h, w, h, 0);
}

proof fn lemma_len_from_quotients(len: int, w: int, h: int)
    requires
        0 <= len <= usize::MAX,
        0 < w,
        0 < h,
        len % 4 == 0,
        (len / 4) / w == h,
        (len / 4) % w == 0,
    ensures
        len == w * h * 4,
{
    vstd::arithmetic::div_mod::lemma_fundamental_div_mod(len, 4);
    vstd::arithmetic::div_mod::lemma_fundamental_div_mod(len / 4, w);
    assert(len == w * h * 4) by (nonlinear_arith)
        requires
            len == 4 * (len / 4),
            len / 4 == w * ((len / 4) / w),
            (len / 4) / w == h,
    ;
}

/// The bytes that `image::imageops::resize` with the triangle filter gives for
/// an RGBA8 buffer of `width` by `height` pixels resampled to `new_width` by
/// `new_height`.
pub uninterp spec fn triangle_resampled(
    pixels: Seq<u8>,
    width: u32,
    height: u32,
    new_width: u32,
    new_height: u32,
) -> Seq<u8>;

/// Relies on `image::ImageBuffer::from_raw`, which accepts a buffer of exactly
/// `width * height * 4` bytes, and on `image::imageops::resize` with
/// `FilterType::Triangle`, which returns a buffer of `new_width * new_height`
/// RGBA8 pixels and depends on its arguments alone. The intermediate buffer of
/// `width` by `new_height` pixels of four `f32` must be allocatable.
#[verifier::external_body]
fn resize_rgba(pixels: Vec<u8>, width: u32, height: u32, new_width: u32, new_height: u32) -> (r:
    Vec<u8>)
    requires
        width > 0,
        height > 0,
        new_width > 0,
        new_height > 0,
        pixels@.len() == capacity_of(width, height),
        capacity_of(new_width, new_height) <= isize::MAX,
        capacity_of(width, new_height) * 4 <= isize::MAX,
    ensures
        r@ == triangle_resampled(pixels@, width, height, new_width, new_height),
        r@.len() == capacity_of(new_width, new_height),
{
    let source = image::RgbaImage::from_raw(width, height, pixels).unwrap();
    image::imageops::resize(&source, new_width, new_height, image::imageops::FilterType::Triangle)
        .into_raw()
}

/// Resampling either raster to the other's dimensions stays within the
/// machine's allocation limit.
pub open spec fn resample_fits(img1: Raster, img2: Raster) -> bool {
    &&& capacity_of(img1.width, img2.height) * 4 <= isize::MAX
    &&& capacity_of(img2.width, img1.height) * 4 <= isize::MAX
}

/// The pixels of `img` at dimensions `target`: unchanged when it already has
/// them, resampled with the triangle filter otherwise.
pub open spec fn standardized(img: Raster, target: (u32, u32)) -> Seq<u8> {
    if img.dims() == target {
        img.pixels@
    } else {
        triangle_resampled(img.pixels@, img.width, img.height, target.0, target.1)
    }
}

fn fit_to(img: Raster, width: u32, height: u32) -> (r: Raster)
    requires
        img.wf(),
        width > 0,
        height > 0,
        capacity_of(width, height) <= isize::MAX,
        img.dims() != (width, height) ==> capacity_of(img.width, height) * 4 <= isize::MAX,
    ensures
        r.wf(),
        r.dims() == (width, height),
        r.pixels@ == standardized(img, (width, height)),
{
    if img.width == width && img.height == height {
        img
    } else {
        let pixels = resize_rgba(img.pixels, img.width, img.height, width, height);
        Raster { width, height, pixels }
    }
}

/// Brings both rasters to the dimensions of the one with the smaller area
/// (the second on equal areas); only a raster whose dimensions differ from
/// those is resampled.
pub fn standardise_size(img1: Raster, img2: Raster) -> (r: (Raster, Raster))
    requires
        img1.wf(),
        img2.wf(),
        resample_fits(img1, img2),
    ensures
        r.0.wf(),
        r.1.wf(),
        r.0.dims() == smallest_dim(img1.dims(), img2.dims()),
        r.1.dims() == smallest_dim(img1.dims(), img2.dims()),
        r.0.pixels@ == standardized(img1, smallest_dim(img1.dims(), img2.dims())),
        r.1.pixels@ == standardized(img2, smallest_dim(img1.dims(), img2.dims())),
{
    let (width, height) = get_smallest_dim((img1.width, img1.height), (img2.width, img2.height));
    let out1 = fit_to(img1, width, height);
    let out2 = fit_to(img2, width, height);
    (out1, out2)
}

/// When both rasters already have the selected dimensions, standardization
/// resamples neither: both buffers come out byte for byte as they went in.
pub proof fn lemma_standardize_keeps_matching(img1: Raster, img2: Raster)
    requires
        img1.dims() == smallest_dim(img1.dims(), img2.dims()),
        img2.dims() == smallest_dim(img1.dims(), img2.dims()),
    ensures
        standardized(img1, smallest_dim(img1.dims(), img2.dims())) == img1.pixels@,
        standardized(img2, smallest_dim(img1.dims(), img2.dims())) == img2.pixels@,
{
}

/// Standardization resamples at most one of the two rasters: the selected
/// dimensions are those of one of them, which passes through unchanged.
pub proof fn lemma_standardize_resamples_at_most_one(img1: Raster, img2: Raster)
    ensures
        standardized(img1, smallest_dim(img1.dims(), img2.dims())) == img1.pixels@
            || standardized(img2, smallest_dim(img1.dims(), img2.dims())) == img2.pixels@,
{
}

/// The pixels of two rasters of equal dimensions, interleaved pixel by pixel.
pub fn combine_images(img1: Raster, img2: Raster) -> (r: Vec<u8>)
    requires
        img1.wf(),
        img2.wf(),
        img1.dims() == img2.dims(),
    ensures
        r@ == interleaved(img1.pixels@, img2.pixels@),
        r@.len() == capacity_of(img1.width, img1.height),
{
    assert(capacity_of(img1.width, img1.height) % 4 == 0) by {
        vstd::arithmetic::div_mod::lemma_mod_multiples_basic(
            (img1.width as nat * img1.height as nat) as int,
            4,
        );
    }
    alternate_pixels(img1.pixels, img2.pixels)
}

} // verus!
