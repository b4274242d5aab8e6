//! Resampling an image to an exact size: the correction applied when a
//! backend's own output size is not the size asked for, and the final resize.
use vstd::prelude::*;
use crate::geometry::Size;
use crate::raster::{Image, raster_len};
use crate::text::same_text;

verus! {

/// A resampling filter.
#[derive(Clone, Copy, Debug, PartialEq, Eq, Structural)]
pub enum ResizeFilter {
    /// Nearest neighbour: keeps hard pixel edges.
    Nearest,
    Triangle,
    CatmullRom,
    Gaussian,
    Lanczos3,
}

/// The filter a lower-case name selects: `nearest`, `triangle`, `catmullrom`
/// (or `catmull-rom`), `gaussian` or `lanczos3`.
pub open spec fn filter_named(s: Seq<char>) -> Option<ResizeFilter> {
    if s == "nearest"@ {
        Some(ResizeFilter::Nearest)
    } else if s == "triangle"@ {
        Some(ResizeFilter::Triangle)
    } else if s == "catmullrom"@ || s == "catmull-rom"@ {
        Some(ResizeFilter::CatmullRom)
    } else if s == "gaussian"@ {
        Some(ResizeFilter::Gaussian)
    } else if s == "lanczos3"@ {
        Some(ResizeFilter::Lanczos3)
    } else {
        None
    }
}

/// What `str::to_lowercase` makes of a text.
pub uninterp spec fn lower_of(s: Seq<char>) -> Seq<char>;

/// Relies on `str::to_lowercase`: the lower-case form of a text, a function
/// of its characters.
#[verifier::external_body]
fn lowercase(s: &str) -> (r: String)
    ensures
        r@ == lower_of(s@),
{
    s.to_lowercase()
}

/// The filter a name already in lower case selects.
pub fn filter_from_lowercase_name(name: &str) -> (r: Option<ResizeFilter>)
    ensures
        r == filter_named(name@),
{
    if same_text(name, "nearest") {
        Some(ResizeFilter::Nearest)
    } else if same_text(name, "triangle") {
        Some(ResizeFilter::Triangle)
    } else if same_text(name, "catmullrom") || same_text(name, "catmull-rom") {
        Some(ResizeFilter::CatmullRom)
    } else if same_text(name, "gaussian") {
        Some(ResizeFilter::Gaussian)
    } else if same_text(name, "lanczos3") {
        Some(ResizeFilter::Lanczos3)
    } else {
        None
    }
}

/// The filter a name selects, in any case.
pub fn get_resize_method_by_name(name: &str) -> (r: Option<ResizeFilter>)
    ensures
        r == filter_named(lower_of(name@)),
{
    let lower = lowercase(name);
    filter_from_lowercase_name(lower.as_str())
}

/// Whether a filter's resampling is plain arithmetic on the pixels, so that
/// its result is a function of the source, the new size and the filter. The
/// others call floating-point functions (`powi`, `exp`, `sin`) whose
/// precision std leaves unspecified.
pub open spec fn exact_filter(filter: ResizeFilter) -> bool {
    filter == ResizeFilter::Nearest || filter == ResizeFilter::Triangle
}

/// What `image::imageops::resize` makes of an RGBA raster with a filter of
/// plain arithmetic (`exact_filter`).
pub uninterp spec fn resized(
    pixels: Seq<u8>,
    width: nat,
    height: nat,
    new_width: nat,
    new_height: nat,
    filter: ResizeFilter,
) -> Seq<u8>;

/// Relies on `image::imageops::resize`: an RGBA image of exactly the new
/// width and height; with the nearest-neighbour or the triangle filter, a
/// function of the source, the new size and the filter.
#[verifier::external_body]
fn resize_rgba(pixels: &Vec<u8>, width: u32, height: u32, new_width: u32, new_height: u32, filter: ResizeFilter) -> (r: Vec<u8>)
    requires
        (Size { width, height }).wf(),
        (Size { width: new_width, height: new_height }).wf(),
        pixels@.len() == raster_len(width as int, height as int),
    ensures
        exact_filter(filter) ==> r@ == resized(
            pixels@,
            width as nat,
            height as nat,
            new_width as nat,
            new_height as nat,
            filter,
        ),
        r@.len() == raster_len(new_width as int, new_height as int),
{
    let source = image::RgbaImage::from_raw(width, height, pixels.clone()).unwrap();
    let kind = match filter {
        ResizeFilter::Nearest => image::imageops::FilterType::Nearest,
        ResizeFilter::Triangle => image::imageops::FilterType::Triangle,
        ResizeFilter::CatmullRom => image::imageops::FilterType::CatmullRom,
        ResizeFilter::Gaussian => image::imageops::FilterType::Gaussian,
        ResizeFilter::Lanczos3 => image::imageops::FilterType::Lanczos3,
    };
    image::imageops::resize(&source, new_width, new_height, kind).into_raw()
}

/// The bytes of an image of size `from` brought to size `to`: the same bytes
/// where the sizes agree, else resampled with `filter` (stated of an
/// `exact_filter` only).
pub open spec fn reconciled(pixels: Seq<u8>, from: Size, to: Size, filter: ResizeFilter) -> Seq<u8> {
    if from == to {
        pixels
    } else {
        resized(pixels, from.width as nat, from.height as nat, to.width as nat, to.height as nat, filter)
    }
}

/// Brings an image to exactly the size `target`. An image already of that
/// size comes back unchanged, with no resampling; otherwise it is resampled
/// with `filter`, whose bytes are stated for an `exact_filter`.
pub fn reconcile(img: Image, target: Size, filter: ResizeFilter) -> (r: Image)
    requires
        img.wf(),
        target.wf(),
    ensures
        r.wf(),
        r.size() == target,
        img.size() == target ==> r.pixels@ == img.pixels@,
        exact_filter(filter) ==> r.pixels@ == reconciled(img.pixels@, img.size(), target, filter),
{
    if img.width == target.width && img.height == target.height {
        img
    } else {
        let pixels = resize_rgba(&img.pixels, img.width, img.height, target.width, target.height, filter);
        Image { width: target.width, height: target.height, pixels }
    }
}

} // verus!
