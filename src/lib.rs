//! Merges two images of one container format into a single image whose pixels
//! alternate between the two sources.

pub mod args;
pub mod dims;
pub mod output;
pub mod pipeline;
pub mod pixels;
pub mod raster;

pub use args::Args;
pub use dims::get_smallest_dim;
pub use output::{FloatingImage, ImageDataErrors};
pub use pipeline::merge_images;
pub use pixels::{alternate_pixels, set_rgba};
pub use raster::{combine_images, standardise_size, Raster};
