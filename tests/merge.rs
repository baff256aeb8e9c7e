use image::ImageFormat;
use image_combiner::{combine_images, merge_images, standardise_size, Args, ImageDataErrors, Raster};

fn raster(width: u32, height: u32, pixels: Vec<u8>) -> Raster {
    Raster::from_rgba(width, height, pixels).unwrap()
}

fn uniform(width: u32, height: u32, px: [u8; 4]) -> Vec<u8> {
    let mut v = Vec::new();
    for _ in 0..width * height {
        v.extend_from_slice(&px);
    }
    v
}

fn pixels_a() -> Vec<u8> {
    vec![1, 2, 3, 4, 5, 6, 7, 8, 9, 10, 11, 12, 13, 14, 15, 16]
}

fn pixels_b() -> Vec<u8> {
    vec![101, 102, 103, 104, 105, 106, 107, 108, 109, 110, 111, 112, 113, 114, 115, 116]
}

#[test]
fn raster_rejects_partial_pixel_buffer() {
    assert!(Raster::from_rgba(2, 2, vec![0; 17]).is_none());
    assert!(Raster::from_rgba(2, 2, vec![0; 12]).is_none());
}

#[test]
fn raster_rejects_zero_dimension() {
    assert!(Raster::from_rgba(0, 2, Vec::new()).is_none());
    assert!(Raster::from_rgba(2, 0, Vec::new()).is_none());
}

#[test]
fn raster_accepts_exact_buffer() {
    let r = Raster::from_rgba(3, 1, vec![4; 12]).unwrap();
    assert_eq!((r.width, r.height), (3, 1));
    assert_eq!(r.pixels, vec![4; 12]);
}

#[test]
fn matching_rasters_are_not_resampled() {
    let (a, b) = standardise_size(raster(2, 2, pixels_a()), raster(2, 2, pixels_b()));
    assert_eq!((a.width, a.height), (2, 2));
    assert_eq!((b.width, b.height), (2, 2));
    assert_eq!(a.pixels, pixels_a());
    assert_eq!(b.pixels, pixels_b());
}

#[test]
fn larger_raster_is_resampled_down() {
    let big = uniform(4, 4, [10, 20, 30, 255]);
    let (a, b) = standardise_size(raster(4, 4, big), raster(2, 2, pixels_b()));
    assert_eq!((a.width, a.height), (2, 2));
    assert_eq!((b.width, b.height), (2, 2));
    assert_eq!(a.pixels, uniform(2, 2, [10, 20, 30, 255]));
    assert_eq!(b.pixels, pixels_b());
}

#[test]
fn second_raster_is_resampled_when_larger() {
    let big = uniform(3, 3, [200, 100, 50, 255]);
    let (a, b) = standardise_size(raster(1, 2, vec![1; 8]), raster(3, 3, big));
    assert_eq!((a.width, a.height), (1, 2));
    assert_eq!(a.pixels, vec![1; 8]);
    assert_eq!((b.width, b.height), (1, 2));
    assert_eq!(b.pixels, uniform(1, 2, [200, 100, 50, 255]));
}

#[test]
fn combine_interleaves_raster_pixels() {
    let r = combine_images(raster(2, 2, pixels_a()), raster(2, 2, pixels_b()));
    assert_eq!(r, vec![1, 2, 3, 4, 105, 106, 107, 108, 9, 10, 11, 12, 113, 114, 115, 116]);
}

#[test]
fn merge_two_by_two_same_format() {
    let out = merge_images(
        raster(2, 2, pixels_a()),
        ImageFormat::Png,
        raster(2, 2, pixels_b()),
        ImageFormat::Png,
        String::from("merged.png"),
    )
    .unwrap();
    assert_eq!((out.width, out.height), (2, 2));
    assert_eq!(out.name, "merged.png");
    assert_eq!(
        out.data,
        vec![1, 2, 3, 4, 105, 106, 107, 108, 9, 10, 11, 12, 113, 114, 115, 116]
    );
}

#[test]
fn merge_resamples_larger_to_smaller_area() {
    let out = merge_images(
        raster(4, 4, uniform(4, 4, [10, 20, 30, 255])),
        ImageFormat::Png,
        raster(2, 2, pixels_b()),
        ImageFormat::Png,
        String::from("m.png"),
    )
    .unwrap();
    assert_eq!((out.width, out.height), (2, 2));
    assert_eq!(
        out.data,
        vec![10, 20, 30, 255, 105, 106, 107, 108, 10, 20, 30, 255, 113, 114, 115, 116]
    );
}

#[test]
fn merge_rejects_different_formats() {
    let r = merge_images(
        raster(4, 4, uniform(4, 4, [1, 1, 1, 1])),
        ImageFormat::Jpeg,
        raster(2, 2, pixels_b()),
        ImageFormat::Png,
        String::from("m.png"),
    );
    assert!(matches!(r, Err(ImageDataErrors::DifferentImageFormats)));
}

#[test]
fn args_take_three_positionals() {
    let argv: Vec<String> = vec!["prog", "a.png", "b.png", "out.png"]
        .into_iter()
        .map(String::from)
        .collect();
    let args = Args::new(&argv).unwrap();
    assert_eq!(args.img1, "a.png");
    assert_eq!(args.img2, "b.png");
    assert_eq!(args.output, "out.png");
}

#[test]
fn args_missing_output() {
    let argv: Vec<String> = vec!["prog", "a.png", "b.png"].into_iter().map(String::from).collect();
    assert!(Args::new(&argv).is_none());
}
