//! The fixed-factor pixel-art algorithms: each enlarges an RGBA raster by one
//! of a few whole factors.
use vstd::prelude::*;
use crate::geometry::MAX_DIMENSION;
use crate::raster::{Image, raster_len, lemma_raster_len_bound};
use crate::codec::{packed_words, unpacked_words, u8_vec_to_u32_vec, u32_vec_to_u8_vec};
use crate::text::same_text;

verus! {

/// A fixed-factor magnification algorithm.
#[derive(Clone, Copy, Debug, PartialEq, Eq, Structural)]
pub enum Algorithm {
    /// xBRZ, by 1 to 6.
    Xbrz,
    /// xBR, by 2.
    Xbr,
    /// Scale2x and Scale3x.
    ScaleNx,
    /// Eagle, by 2.
    Eagle,
    /// MMPX, by 2.
    Mmpx,
    /// hq2x, hq3x and hq4x.
    Hqx,
}

/// A rule of the `magnify` family.
#[derive(Clone, Copy, Debug, PartialEq, Eq, Structural)]
pub enum MagnifyRule {
    Scale2x,
    Scale3x,
    Eagle,
}

/// The smallest factor an algorithm produces.
pub open spec fn min_factor(a: Algorithm) -> int {
    match a {
        Algorithm::Xbrz => 1,
        _ => 2,
    }
}

/// The largest factor an algorithm produces.
pub open spec fn max_factor(a: Algorithm) -> int {
    match a {
        Algorithm::Xbrz => 6,
        Algorithm::ScaleNx => 3,
        Algorithm::Hqx => 4,
        _ => 2,
    }
}

/// The algorithm a method name selects.
pub open spec fn algorithm_named(s: Seq<char>) -> Option<Algorithm> {
    if s == "rust-xbrz"@ {
        Some(Algorithm::Xbrz)
    } else if s == "rust-xbr"@ {
        Some(Algorithm::Xbr)
    } else if s == "rust-scalenx"@ {
        Some(Algorithm::ScaleNx)
    } else if s == "rust-eagle"@ {
        Some(Algorithm::Eagle)
    } else if s == "rust-mmpx"@ {
        Some(Algorithm::Mmpx)
    } else if s == "rust-hqx"@ {
        Some(Algorithm::Hqx)
    } else {
        None
    }
}

impl Algorithm {
    /// The algorithm a method name selects, if any.
    pub fn from_name(name: &str) -> (r: Option<Algorithm>)
        ensures
            r == algorithm_named(name@),
    {
        if same_text(name, "rust-xbrz") {
            Some(Algorithm::Xbrz)
        } else if same_text(name, "rust-xbr") {
            Some(Algorithm::Xbr)
        } else if same_text(name, "rust-scalenx") {
            Some(Algorithm::ScaleNx)
        } else if same_text(name, "rust-eagle") {
            Some(Algorithm::Eagle)
        } else if same_text(name, "rust-mmpx") {
            Some(Algorithm::Mmpx)
        } else if same_text(name, "rust-hqx") {
            Some(Algorithm::Hqx)
        } else {
            None
        }
    }

    /// The smallest and the largest factor the algorithm produces.
    pub fn factor_bounds(self) -> (r: (u32, u32))
        ensures
            r.0 == min_factor(self),
            r.1 == max_factor(self),
    {
        match self {
            Algorithm::Xbrz => (1, 6),
            Algorithm::ScaleNx => (2, 3),
            Algorithm::Hqx => (2, 4),
            _ => (2, 2),
        }
    }
}

/// What `xbrz::scale_rgba` makes of an RGBA raster.
pub uninterp spec fn xbrz_scaled(pixels: Seq<u8>, width: nat, height: nat, factor: nat) -> Seq<u8>;

/// What `xbr::x2` makes of an RGBA raster.
pub uninterp spec fn xbr_doubled(pixels: Seq<u8>, width: nat, height: nat) -> Seq<u8>;

/// What `magnify::convert` makes of an RGBA raster, as RGBA bytes.
pub uninterp spec fn magnified(pixels: Seq<u8>, width: nat, height: nat, rule: MagnifyRule) -> Seq<u8>;

/// What `mmpx::magnify` makes of an RGBA raster.
pub uninterp spec fn mmpx_doubled(pixels: Seq<u8>, width: nat, height: nat) -> Seq<u8>;

/// What `hqx::hq2x` writes for a raster of pixel words.
pub uninterp spec fn hq2x_of(words: Seq<u32>, width: nat, height: nat) -> Seq<u32>;

/// What `hqx::hq3x` writes for a raster of pixel words.
pub uninterp spec fn hq3x_of(words: Seq<u32>, width: nat, height: nat) -> Seq<u32>;

/// What `hqx::hq4x` writes for a raster of pixel words.
pub uninterp spec fn hq4x_of(words: Seq<u32>, width: nat, height: nat) -> Seq<u32>;

/// A raster of the given size, small enough to enlarge by `factor` within
/// `MAX_DIMENSION`.
pub open spec fn enlargeable(pixels: Seq<u8>, width: int, height: int, factor: int) -> bool {
    &&& 1 <= width
    &&& 1 <= height
    &&& 1 <= factor
    &&& width * factor <= MAX_DIMENSION
    &&& height * factor <= MAX_DIMENSION
    &&& pixels.len() == raster_len(width, height)
}

/// Relies on `xbrz::scale_rgba`: an RGBA raster `factor` times as wide and
/// as high, a function of its arguments; with factor 1 it is a copy of the
/// source. It panics unless the source holds four bytes per pixel and the
/// factor is 1 to 6.
#[verifier::external_body]
fn xbrz_scale_rgba(pixels: &Vec<u8>, width: u32, height: u32, factor: u32) -> (r: Vec<u8>)
    requires
        enlargeable(pixels@, width as int, height as int, factor as int),
        factor <= 6,
    ensures
        r@ == xbrz_scaled(pixels@, width as nat, height as nat, factor as nat),
        r@.len() == raster_len(width * factor, height * factor),
        factor == 1 ==> r@ == pixels@,
{
    xbrz::scale_rgba(pixels.as_slice(), width as usize, height as usize, factor as usize)
}

/// Relies on `xbr::x2`: a block twice as wide and as high, a function of
/// the source block; it reads four bytes per pixel of the source.
#[verifier::external_body]
fn xbr_x2(pixels: &Vec<u8>, width: u32, height: u32) -> (r: Vec<u8>)
    requires
        enlargeable(pixels@, width as int, height as int, 2),
    ensures
        r@ == xbr_doubled(pixels@, width as nat, height as nat),
        r@.len() == raster_len(width * 2, height * 2),
{
    xbr::x2(xbr::Block::new(pixels.clone(), width, height)).bytes
}

/// Relies on `magnify::convert`: an image 2 (Scale2x, Eagle) or 3 (Scale3x)
/// times as wide and as high, a function of the source, returned here as
/// RGBA bytes.
#[verifier::external_body]
fn magnify_convert(pixels: &Vec<u8>, width: u32, height: u32, rule: MagnifyRule) -> (r: Vec<u8>)
    requires
        enlargeable(
            pixels@,
            width as int,
            height as int,
            if rule == MagnifyRule::Scale3x { 3 } else { 2 },
        ),
    ensures
        r@ == magnified(pixels@, width as nat, height as nat, rule),
        rule == MagnifyRule::Scale3x ==> r@.len() == raster_len(width * 3, height * 3),
        rule != MagnifyRule::Scale3x ==> r@.len() == raster_len(width * 2, height * 2),
{
    let source = image::RgbaImage::from_raw(width, height, pixels.clone()).unwrap();
    let algorithm = match rule {
        MagnifyRule::Scale2x => magnify::Algorithm::Scale2X,
        MagnifyRule::Scale3x => magnify::Algorithm::Scale3X,
        MagnifyRule::Eagle => magnify::Algorithm::Eagle,
    };
    magnify::convert(image::DynamicImage::ImageRgba8(source), algorithm).to_rgba8().into_raw()
}

/// Relies on `mmpx::magnify`: an image twice as wide and as high, a function
/// of the source.
#[verifier::external_body]
fn mmpx_magnify(pixels: &Vec<u8>, width: u32, height: u32) -> (r: Vec<u8>)
    requires
        enlargeable(pixels@, width as int, height as int, 2),
    ensures
        r@ == mmpx_doubled(pixels@, width as nat, height as nat),
        r@.len() == raster_len(width * 2, height * 2),
{
    let source = image::RgbaImage::from_raw(width, height, pixels.clone()).unwrap();
    mmpx::magnify(&source).into_raw()
}

/// Relies on `hqx::hq2x`: it writes every one of the `4 * width * height`
/// destination words, as a function of the source words.
#[verifier::external_body]
fn hq2x_into(src: &Vec<u32>, dest: &mut Vec<u32>, width: u32, height: u32)
    requires
        src@.len() == width * height,
        old(dest)@.len() == 4 * (width * height),
    ensures
        final(dest)@ == hq2x_of(src@, width as nat, height as nat),
        final(dest)@.len() == 4 * (width * height),
{
    hqx::hq2x(src.as_slice(), dest.as_mut_slice(), width, height)
}

/// Relies on `hqx::hq3x`: it writes every one of the `9 * width * height`
/// destination words, as a function of the source words.
#[verifier::external_body]
fn hq3x_into(src: &Vec<u32>, dest: &mut Vec<u32>, width: u32, height: u32)
    requires
        src@.len() == width * height,
        old(dest)@.len() == 9 * (width * height),
    ensures
        final(dest)@ == hq3x_of(src@, width as nat, height as nat),
        final(dest)@.len() == 9 * (width * height),
{
    hqx::hq3x(src.as_slice(), dest.as_mut_slice(), width, height)
}

/// Relies on `hqx::hq4x`: it writes every one of the `16 * width * height`
/// destination words, as a function of the source words.
#[verifier::external_body]
fn hq4x_into(src: &Vec<u32>, dest: &mut Vec<u32>, width: u32, height: u32)
    requires
        src@.len() == width * height,
        old(dest)@.len() == 16 * (width * height),
    ensures
        final(dest)@ == hq4x_of(src@, width as nat, height as nat),
        final(dest)@.len() == 16 * (width * height),
{
    hqx::hq4x(src.as_slice(), dest.as_mut_slice(), width, height)
}

/// The hqx output for a factor of 2, 3 or 4, as RGBA bytes.
pub open spec fn hqx_output(pixels: Seq<u8>, width: nat, height: nat, factor: int) -> Seq<u8> {
    let words = packed_words(pixels);
    unpacked_words(
        if factor == 2 {
            hq2x_of(words, width, height)
        } else if factor == 3 {
            hq3x_of(words, width, height)
        } else {
            hq4x_of(words, width, height)
        },
    )
}

/// The RGBA bytes an algorithm makes of a raster at a given factor.
pub open spec fn algorithm_output(a: Algorithm, pixels: Seq<u8>, width: nat, height: nat, factor: int) -> Seq<u8> {
    match a {
        Algorithm::Xbrz => xbrz_scaled(pixels, width, height, factor as nat),
        Algorithm::Xbr => xbr_doubled(pixels, width, height),
        Algorithm::ScaleNx => if factor == 3 {
            magnified(pixels, width, height, MagnifyRule::Scale3x)
        } else {
            magnified(pixels, width, height, MagnifyRule::Scale2x)
        },
        Algorithm::Eagle => magnified(pixels, width, height, MagnifyRule::Eagle),
        Algorithm::Mmpx => mmpx_doubled(pixels, width, height),
        Algorithm::Hqx => hqx_output(pixels, width, height, factor),
    }
}

/// Enlarging by `factor` stays within the largest size.
proof fn lemma_enlarged_len(width: int, height: int, factor: int)
    requires
        1 <= width,
        1 <= height,
        1 <= factor,
        width * factor <= MAX_DIMENSION,
        height * factor <= MAX_DIMENSION,
    ensures
        1 <= width * factor <= MAX_DIMENSION,
        1 <= height * factor <= MAX_DIMENSION,
        factor * factor * (width * height) == (width * factor) * (height * factor),
        raster_len(width * factor, height * factor) <= 1_073_741_824,
        width * height <= 268_435_456,
        factor <= MAX_DIMENSION,
        factor * factor * (width * height) <= 268_435_456,
{
    assert(width * factor >= 1 && height * factor >= 1 && factor <= width * factor
        && width <= width * factor && height <= height * factor) by (nonlinear_arith)
        requires 1 <= width, 1 <= height, 1 <= factor;
    assert(factor * factor * (width * height) == (width * factor) * (height * factor)) by (nonlinear_arith);
    lemma_raster_len_bound(width * factor, height * factor);
    lemma_raster_len_bound(width, height);
}

/// Runs hqx at factor 2, 3 or 4.
fn scale_hqx_pixels(pixels: &Vec<u8>, width: u32, height: u32, factor: u32) -> (r: Vec<u8>)
    requires
        enlargeable(pixels@, width as int, height as int, factor as int),
        2 <= factor <= 4,
    ensures
        r@ == hqx_output(pixels@, width as nat, height as nat, factor as int),
        r@.len() == raster_len(width * factor, height * factor),
{
    proof {
        lemma_enlarged_len(width as int, height as int, factor as int);
    }
    let words = u8_vec_to_u32_vec(pixels);
    assert(words@.len() == width * height);
    assert(factor * factor * (width * height) <= 268_435_456);
    assert(factor == 2 ==> factor * factor * (width * height) == 4 * (width * height)) by (nonlinear_arith);
    assert(factor == 3 ==> factor * factor * (width * height) == 9 * (width * height)) by (nonlinear_arith);
    assert(factor == 4 ==> factor * factor * (width * height) == 16 * (width * height)) by (nonlinear_arith);
    let area = (width as usize) * (height as usize);
    let mut out: Vec<u32>;
    if factor == 2 {
        out = vec![0u32; 4 * area];
        hq2x_into(&words, &mut out, width, height);
    } else if factor == 3 {
        out = vec![0u32; 9 * area];
        hq3x_into(&words, &mut out, width, height);
    } else {
        out = vec![0u32; 16 * area];
        hq4x_into(&words, &mut out, width, height);
    }
    u32_vec_to_u8_vec(out)
}

/// Enlarges an image by `factor` with the given algorithm.
pub fn run_algorithm(a: Algorithm, img: &Image, factor: u32) -> (r: Image)
    requires
        img.wf(),
        min_factor(a) <= factor <= max_factor(a),
        img.width * factor <= MAX_DIMENSION,
        img.height * factor <= MAX_DIMENSION,
    ensures
        r.wf(),
        r.width == img.width * factor,
        r.height == img.height * factor,
        r.pixels@ == algorithm_output(a, img.pixels@, img.width as nat, img.height as nat, factor as int),
        a == Algorithm::Xbrz && factor == 1 ==> r.pixels@ == img.pixels@,
{
    proof {
        lemma_enlarged_len(img.width as int, img.height as int, factor as int);
    }
    let w = img.width;
    let h = img.height;
    let pixels = match a {
        Algorithm::Xbrz => xbrz_scale_rgba(&img.pixels, w, h, factor),
        Algorithm::Xbr => xbr_x2(&img.pixels, w, h),
        Algorithm::ScaleNx => if factor == 3 {
            magnify_convert(&img.pixels, w, h, MagnifyRule::Scale3x)
        } else {
            magnify_convert(&img.pixels, w, h, MagnifyRule::Scale2x)
        },
        Algorithm::Eagle => magnify_convert(&img.pixels, w, h, MagnifyRule::Eagle),
        Algorithm::Mmpx => mmpx_magnify(&img.pixels, w, h),
        Algorithm::Hqx => scale_hqx_pixels(&img.pixels, w, h, factor),
    };
    Image { width: w * factor, height: h * factor, pixels }
}

} // verus!
