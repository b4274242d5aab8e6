//! Scaling color and transparency apart: an RGBA image splits into an opaque
//! color plane and an opaque grey plane that carries the alpha channel, and
//! two such planes merge back into one RGBA image.
use vstd::prelude::*;
use crate::raster::{Image, lemma_raster_len_bound};
use crate::text::same_text;

verus! {

/// How the alpha channel goes through a scaling backend.
#[derive(Clone, Copy, Debug, PartialEq, Eq, Structural)]
pub enum AlphaMode {
    /// `Bypass` for a backend that handles alpha, `Split` for one that does not.
    Auto,
    /// Scale the color plane and the alpha plane apart, then merge them.
    Split,
    /// Scale the color plane only; the result is opaque.
    Strip,
    /// Hand the RGBA image to the backend as it is.
    Bypass,
}

/// The mode named by `s`: `auto`, `split`, `strip` or `bypass`.
pub open spec fn alpha_mode_named(s: Seq<char>) -> Option<AlphaMode> {
    if s == "auto"@ {
        Some(AlphaMode::Auto)
    } else if s == "split"@ {
        Some(AlphaMode::Split)
    } else if s == "strip"@ {
        Some(AlphaMode::Strip)
    } else if s == "bypass"@ {
        Some(AlphaMode::Bypass)
    } else {
        None
    }
}

/// The mode actually used with a backend that does or does not handle alpha.
pub open spec fn effective_mode(mode: AlphaMode, supports_alpha: bool) -> AlphaMode {
    match mode {
        AlphaMode::Auto => if supports_alpha {
            AlphaMode::Bypass
        } else {
            AlphaMode::Split
        },
        _ => mode,
    }
}

impl AlphaMode {
    /// Reads a mode name.
    pub fn from_name(name: &str) -> (r: Option<AlphaMode>)
        ensures
            r == alpha_mode_named(name@),
    {
        if same_text(name, "auto") {
            Some(AlphaMode::Auto)
        } else if same_text(name, "split") {
            Some(AlphaMode::Split)
        } else if same_text(name, "strip") {
            Some(AlphaMode::Strip)
        } else if same_text(name, "bypass") {
            Some(AlphaMode::Bypass)
        } else {
            None
        }
    }

    /// The mode used with a backend: `Auto` becomes `Bypass` where the backend
    /// handles alpha and `Split` where it does not; the others stay.
    pub fn resolve(self, supports_alpha: bool) -> (r: AlphaMode)
        ensures
            r == effective_mode(self, supports_alpha),
            r != AlphaMode::Auto,
    {
        match self {
            AlphaMode::Auto => if supports_alpha {
                AlphaMode::Bypass
            } else {
                AlphaMode::Split
            },
            other => other,
        }
    }
}

/// The color plane of RGBA bytes: the same red, green and blue, alpha 255.
pub open spec fn color_plane(p: Seq<u8>) -> Seq<u8> {
    Seq::new(p.len(), |j: int| if j % 4 == 3 { 255u8 } else { p[j] })
}

/// The alpha plane of RGBA bytes: red, green and blue all equal to the
/// pixel's alpha, alpha 255.
pub open spec fn alpha_plane(p: Seq<u8>) -> Seq<u8> {
    Seq::new(p.len(), |j: int| if j % 4 == 3 { 255u8 } else { p[j - j % 4 + 3] })
}

/// RGBA bytes with the red, green and blue of `c` and, for alpha, the red of
/// the same pixel of `a`.
pub open spec fn merged_planes(c: Seq<u8>, a: Seq<u8>) -> Seq<u8> {
    Seq::new(c.len(), |j: int| if j % 4 == 3 { a[j - 3] } else { c[j] })
}

/// Splits an RGBA image into its color plane and its alpha plane, both of
/// its size.
pub fn split_alpha(img: &Image) -> (r: (Image, Image))
    requires
        img.wf(),
    ensures
        r.0.wf(),
        r.1.wf(),
        r.0.size() == img.size(),
        r.1.size() == img.size(),
        r.0.pixels@ == color_plane(img.pixels@),
        r.1.pixels@ == alpha_plane(img.pixels@),
{
    proof {
        lemma_raster_len_bound(img.width as int, img.height as int);
    }
    let n = img.pixels.len();
    let count = n / 4;
    let mut rgb: Vec<u8> = Vec::with_capacity(n);
    let mut alpha: Vec<u8> = Vec::with_capacity(n);
    let mut i: usize = 0;
    while i < count
        invariant
            img.wf(),
            n == img.pixels@.len(),
            n % 4 == 0,
            count == n / 4,
            i <= count,
            rgb@ =~= color_plane(img.pixels@).take(4 * i),
            alpha@ =~= alpha_plane(img.pixels@).take(4 * i),
        decreases count - i,
    {
        let r = img.pixels[4 * i];
        let g = img.pixels[4 * i + 1];
        let b = img.pixels[4 * i + 2];
        let a = img.pixels[4 * i + 3];
        rgb.push(r);
        rgb.push(g);
        rgb.push(b);
        rgb.push(255u8);
        alpha.push(a);
        alpha.push(a);
        alpha.push(a);
        alpha.push(255u8);
        i = i + 1;
        proof {
            let p = img.pixels@;
            assert(rgb@ =~= color_plane(p).take(4 * i)) by {
                assert forall|j: int| 4 * i - 4 <= j < 4 * i implies rgb@[j] == color_plane(p)[j] by {
                }
            }
            assert(alpha@ =~= alpha_plane(p).take(4 * i)) by {
                assert forall|j: int| 4 * i - 4 <= j < 4 * i implies alpha@[j] == alpha_plane(p)[j] by {
                }
            }
        }
    }
    assert(rgb@ =~= color_plane(img.pixels@));
    assert(alpha@ =~= alpha_plane(img.pixels@));
    (
        Image { width: img.width, height: img.height, pixels: rgb },
        Image { width: img.width, height: img.height, pixels: alpha },
    )
}

/// Merges a color plane and an alpha plane of one size into an RGBA image:
/// color from the first, alpha from the red channel of the second.
pub fn merge_alpha(rgb: &Image, alpha: &Image) -> (r: Image)
    requires
        rgb.wf(),
        alpha.wf(),
        rgb.size() == alpha.size(),
    ensures
        r.wf(),
        r.size() == rgb.size(),
        r.pixels@ == merged_planes(rgb.pixels@, alpha.pixels@),
{
    proof {
        lemma_raster_len_bound(rgb.width as int, rgb.height as int);
    }
    let n = rgb.pixels.len();
    let count = n / 4;
    let mut out: Vec<u8> = Vec::with_capacity(n);
    let mut i: usize = 0;
    while i < count
        invariant
            rgb.wf(),
            alpha.wf(),
            rgb.size() == alpha.size(),
            n == rgb.pixels@.len(),
            n == alpha.pixels@.len(),
            n % 4 == 0,
            count == n / 4,
            i <= count,
            out@ =~= merged_planes(rgb.pixels@, alpha.pixels@).take(4 * i),
        decreases count - i,
    {
        out.push(rgb.pixels[4 * i]);
        out.push(rgb.pixels[4 * i + 1]);
        out.push(rgb.pixels[4 * i + 2]);
        out.push(alpha.pixels[4 * i]);
        i = i + 1;
        proof {
            let m = merged_planes(rgb.pixels@, alpha.pixels@);
            assert(out@ =~= m.take(4 * i)) by {
                assert forall|j: int| 4 * i - 4 <= j < 4 * i implies out@[j] == m[j] by {
                }
            }
        }
    }
    assert(out@ =~= merged_planes(rgb.pixels@, alpha.pixels@));
    Image { width: rgb.width, height: rgb.height, pixels: out }
}

/// Splitting RGBA bytes into planes and merging the planes gives back the
/// same bytes, alpha included, for every pixel.
pub proof fn lemma_merge_of_split(p: Seq<u8>)
    requires
        p.len() % 4 == 0,
    ensures
        merged_planes(color_plane(p), alpha_plane(p)) == p,
{
    let m = merged_planes(color_plane(p), alpha_plane(p));
    assert forall|j: int| 0 <= j < p.len() implies m[j] == p[j] by {
        if j % 4 == 3 {
            assert((j - 3) % 4 == 0);
            assert(alpha_plane(p)[j - 3] == p[j]);
        }
    }
    assert(m =~= p);
}

/// Splitting an image and merging its planes gives back the image exactly.
pub proof fn lemma_split_then_merge_is_identity(img: &Image)
    requires
        img.wf(),
    ensures
        merged_planes(color_plane(img.pixels@), alpha_plane(img.pixels@)) == img.pixels@,
{
    assert(img.pixels@.len() % 4 == 0) by (nonlinear_arith)
        requires img.pixels@.len() == img.width * img.height * 4;
    lemma_merge_of_split(img.pixels@);
}

} // verus!
