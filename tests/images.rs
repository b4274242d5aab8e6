use ra_pixelart_scale::alpha::{merge_alpha, split_alpha, AlphaMode};
use ra_pixelart_scale::backends::{run_algorithm, Algorithm};
use ra_pixelart_scale::codec::{u32_vec_to_u8_vec, u8_vec_to_u32_vec};
use ra_pixelart_scale::geometry::{parse_resize_spec, Size};
use ra_pixelart_scale::pipeline::{combine_planes, planes_for, resize_image};
use ra_pixelart_scale::raster::Image;
use ra_pixelart_scale::resize::{
    filter_from_lowercase_name, get_resize_method_by_name, reconcile, ResizeFilter,
};

fn patterned(width: u32, height: u32) -> Image {
    let mut pixels = Vec::new();
    for i in 0..(width * height) {
        pixels.push((i * 7 % 256) as u8);
        pixels.push((i * 13 % 256) as u8);
        pixels.push((i * 29 % 256) as u8);
        pixels.push((i * 37 % 256) as u8);
    }
    Image::from_raw(width, height, pixels).unwrap()
}

#[test]
fn image_sizes_are_checked() {
    assert!(Image::from_raw(2, 2, vec![0; 16]).is_some());
    assert!(Image::from_raw(2, 2, vec![0; 15]).is_none());
    assert!(Image::from_raw(0, 2, vec![]).is_none());
    assert!(Image::from_raw(16385, 1, vec![0; 16385 * 4]).is_none());
}

#[test]
fn split_makes_opaque_color_and_grey_alpha_planes() {
    let img = patterned(10, 10);
    let (rgb, alpha) = split_alpha(&img);
    assert_eq!((rgb.width, rgb.height), (10, 10));
    assert_eq!((alpha.width, alpha.height), (10, 10));
    for i in 0..100 {
        let p = &img.pixels[4 * i..4 * i + 4];
        assert_eq!(&rgb.pixels[4 * i..4 * i + 4], &[p[0], p[1], p[2], 255]);
        assert_eq!(&alpha.pixels[4 * i..4 * i + 4], &[p[3], p[3], p[3], 255]);
    }
}

#[test]
fn merge_of_split_is_the_image() {
    let img = patterned(7, 5);
    let (rgb, alpha) = split_alpha(&img);
    let merged = merge_alpha(&rgb, &alpha);
    assert_eq!((merged.width, merged.height), (7, 5));
    assert_eq!(merged.pixels, img.pixels);
}

#[test]
fn split_mode_through_identity_backend_keeps_alpha() {
    let img = patterned(10, 10);
    assert!(img.pixels.chunks(4).any(|p| p[3] != 255));
    let (rgb, alpha) = split_alpha(&img);
    let rgb1 = run_algorithm(Algorithm::Xbrz, &rgb, 1);
    let alpha1 = run_algorithm(Algorithm::Xbrz, &alpha, 1);
    assert_eq!((rgb1.width, rgb1.height), (10, 10));
    assert_eq!(rgb1.pixels, rgb.pixels);
    let merged = merge_alpha(&rgb1, &alpha1);
    for i in 0..100 {
        assert_eq!(merged.pixels[4 * i + 3], img.pixels[4 * i + 3]);
    }
    assert_eq!(merged.pixels, img.pixels);
}

#[test]
fn merge_takes_alpha_from_red_channel() {
    let rgb = Image::from_raw(1, 1, vec![1, 2, 3, 255]).unwrap();
    let alpha = Image::from_raw(1, 1, vec![9, 8, 7, 255]).unwrap();
    assert_eq!(merge_alpha(&rgb, &alpha).pixels, vec![1, 2, 3, 9]);
}

#[test]
fn planes_per_mode() {
    let img = patterned(3, 2);
    let split = planes_for(&img, AlphaMode::Split);
    assert_eq!(split.len(), 2);
    let strip = planes_for(&img, AlphaMode::Strip);
    assert_eq!(strip.len(), 1);
    assert!(strip[0].pixels.chunks(4).all(|p| p[3] == 255));
    let bypass = planes_for(&img, AlphaMode::Bypass);
    assert_eq!(bypass.len(), 1);
    assert_eq!(bypass[0].pixels, img.pixels);
    assert_eq!(combine_planes(split, AlphaMode::Split).pixels, img.pixels);
    assert_eq!(combine_planes(bypass, AlphaMode::Bypass).pixels, img.pixels);
}

#[test]
fn alpha_mode_names_and_resolution() {
    assert_eq!(AlphaMode::from_name("auto"), Some(AlphaMode::Auto));
    assert_eq!(AlphaMode::from_name("split"), Some(AlphaMode::Split));
    assert_eq!(AlphaMode::from_name("strip"), Some(AlphaMode::Strip));
    assert_eq!(AlphaMode::from_name("bypass"), Some(AlphaMode::Bypass));
    assert_eq!(AlphaMode::from_name("Auto"), None);
    assert_eq!(AlphaMode::Auto.resolve(true), AlphaMode::Bypass);
    assert_eq!(AlphaMode::Auto.resolve(false), AlphaMode::Split);
    assert_eq!(AlphaMode::Strip.resolve(true), AlphaMode::Strip);
    assert_eq!(AlphaMode::Bypass.resolve(false), AlphaMode::Bypass);
}

#[test]
fn pixel_words_are_argb() {
    let words = u8_vec_to_u32_vec(&vec![0x11, 0x22, 0x33, 0x44, 1, 2, 3, 4]);
    assert_eq!(words, vec![0x4411_2233, 0x0401_0203]);
    assert_eq!(u32_vec_to_u8_vec(words), vec![0x11, 0x22, 0x33, 0x44, 1, 2, 3, 4]);
    let img = patterned(5, 3);
    assert_eq!(u32_vec_to_u8_vec(u8_vec_to_u32_vec(&img.pixels)), img.pixels);
}

#[test]
fn reconcile_at_target_size_is_unchanged() {
    let img = patterned(6, 4);
    let before = img.pixels.clone();
    let out = reconcile(img, Size { width: 6, height: 4 }, ResizeFilter::Lanczos3);
    assert_eq!((out.width, out.height), (6, 4));
    assert_eq!(out.pixels, before);
}

#[test]
fn reconcile_resamples_to_target() {
    let img = patterned(48, 48);
    let out = reconcile(img, Size { width: 40, height: 40 }, ResizeFilter::Nearest);
    assert_eq!((out.width, out.height), (40, 40));
    assert_eq!(out.pixels.len(), 40 * 40 * 4);
    let up = reconcile(patterned(2, 1), Size { width: 4, height: 2 }, ResizeFilter::Nearest);
    let p = patterned(2, 1).pixels;
    assert_eq!(&up.pixels[0..4], &p[0..4]);
    assert_eq!(&up.pixels[12..16], &p[4..8]);
}

#[test]
fn final_resize_by_percent() {
    let img = patterned(200, 100);
    let spec = parse_resize_spec("50%").unwrap();
    let out = resize_image(img, spec, ResizeFilter::Triangle);
    assert_eq!((out.width, out.height), (100, 50));
    assert_eq!(out.pixels.len(), 100 * 50 * 4);
}

#[test]
fn filter_names_in_any_case() {
    assert_eq!(get_resize_method_by_name("nearest"), Some(ResizeFilter::Nearest));
    assert_eq!(get_resize_method_by_name("NEAREST"), Some(ResizeFilter::Nearest));
    assert_eq!(get_resize_method_by_name("Triangle"), Some(ResizeFilter::Triangle));
    assert_eq!(get_resize_method_by_name("CatmullRom"), Some(ResizeFilter::CatmullRom));
    assert_eq!(get_resize_method_by_name("catmull-rom"), Some(ResizeFilter::CatmullRom));
    assert_eq!(get_resize_method_by_name("Gaussian"), Some(ResizeFilter::Gaussian));
    assert_eq!(get_resize_method_by_name("LANCZOS3"), Some(ResizeFilter::Lanczos3));
    assert_eq!(get_resize_method_by_name("bicubic"), None);
    assert_eq!(filter_from_lowercase_name("NEAREST"), None);
    assert_eq!(filter_from_lowercase_name("gaussian"), Some(ResizeFilter::Gaussian));
}
