//! Resolving the size to produce and the size a backend is asked for, and
//! running a fixed-factor algorithm over the planes an alpha mode calls for.
use vstd::prelude::*;
use crate::numbers::{Ratio, ratio_le, ratio_eq, ceil_of, ceil_ratio, ratio_less_or_equal, ratio_equal};
use crate::geometry::{
    Size, MAX_DIMENSION, ResizeSpec, scale_size, scaled_size, resize_target_of, resize_target,
};
use crate::raster::Image;
use crate::alpha::{AlphaMode, color_plane, alpha_plane, merged_planes, split_alpha, merge_alpha};
use crate::backends::{Algorithm, algorithm_output, min_factor, max_factor, run_algorithm};
use crate::resize::{ResizeFilter, reconciled, reconcile, exact_filter};
use crate::catalog::{ScaleMethod, MethodView, BackendKind};

verus! {

/// What the caller asks for: a scale factor (zero for the method's default),
/// or an explicit size.
#[derive(Clone, Copy, Debug, PartialEq, Eq, Structural)]
pub enum ScaleRequest {
    Factor(Ratio),
    Resize(ResizeSpec),
}

impl ScaleRequest {
    pub open spec fn wf(&self) -> bool {
        match *self {
            ScaleRequest::Factor(q) => q.wf(),
            ScaleRequest::Resize(ResizeSpec::Percent(q)) => q.wf(),
            _ => true,
        }
    }
}

/// The sizes a scaling run works with.
#[derive(Clone, Copy, Debug, PartialEq, Eq, Structural)]
pub struct Resolution {
    /// The size of the result.
    pub target: Size,
    /// The size the backend produces, before any correction to `target`.
    pub native: Size,
    /// The whole factor a fixed-factor algorithm runs at; `None` for shaders.
    pub factor: Option<u32>,
    /// The algorithm cannot run at the scale asked for and runs at `factor`
    /// instead; its output is then resized to `target`.
    pub adjusted: bool,
}

/// Why a scaling run cannot go ahead.
#[derive(Clone, Copy, Debug, PartialEq, Eq, Structural)]
pub enum ScaleError {
    /// The algorithm's output at its factor would exceed `MAX_DIMENSION`.
    NativeTooLarge,
    /// The method runs a shader preset, which needs a GPU renderer.
    ShaderBackend,
}

pub open spec fn two() -> Ratio {
    Ratio { num: 2, den: 1 }
}

/// A method's scale when none is asked for: 2 for a fixed-factor algorithm,
/// the lower bound for a shader preset.
pub open spec fn default_scale(m: MethodView) -> Ratio {
    match m.kind {
        BackendKind::FixedScale(_) => two(),
        _ => m.min_scale,
    }
}

/// The scale asked for where it is above zero, else the method's default.
pub open spec fn effective_scale(requested: Ratio, m: MethodView) -> Ratio {
    if requested.num > 0 {
        requested
    } else {
        default_scale(m)
    }
}

pub open spec fn clamp_int(v: int, lo: int, hi: int) -> int {
    if v < lo {
        lo
    } else if v > hi {
        hi
    } else {
        v
    }
}

/// The whole factor a fixed-factor method runs at for a scale: the scale
/// rounded up, then clamped to the method's bounds.
pub open spec fn native_factor_for(m: MethodView, scale: Ratio) -> int {
    clamp_int(ceil_of(scale), m.min_scale.num as int, m.max_scale.num as int)
}

/// The size of the result.
pub open spec fn requested_target(input: Size, request: ScaleRequest, m: MethodView) -> Size {
    match request {
        ScaleRequest::Factor(q) => scale_size(input, effective_scale(q, m)),
        ScaleRequest::Resize(spec) => resize_target_of(spec, input),
    }
}

/// The larger of two ratios.
pub open spec fn ratio_max(a: Ratio, b: Ratio) -> Ratio {
    if ratio_le(a, b) {
        b
    } else {
        a
    }
}

/// The scale a fixed-factor method is asked for: the effective scale, or for
/// an explicit size the larger of the two ratios of target to input, so that
/// the native output covers the target on both axes where the bounds allow.
pub open spec fn fixed_scale_for(input: Size, request: ScaleRequest, m: MethodView) -> Ratio {
    match request {
        ScaleRequest::Factor(q) => effective_scale(q, m),
        ScaleRequest::Resize(_) => {
            let t = requested_target(input, request, m);
            ratio_max(
                Ratio { num: t.width as u64, den: input.width as u64 },
                Ratio { num: t.height as u64, den: input.height as u64 },
            )
        },
    }
}

/// The sizes of a run, or `None` where a fixed-factor algorithm's output
/// would exceed `MAX_DIMENSION`. A shader backend is asked for the target
/// size itself.
pub open spec fn resolution_of(input: Size, request: ScaleRequest, m: MethodView) -> Option<Resolution> {
    let target = requested_target(input, request, m);
    match m.kind {
        BackendKind::FixedScale(_) => {
            let s = fixed_scale_for(input, request, m);
            let f = native_factor_for(m, s);
            if input.width * f <= MAX_DIMENSION && input.height * f <= MAX_DIMENSION {
                Some(
                    Resolution {
                        target,
                        native: Size {
                            width: (input.width * f) as u32,
                            height: (input.height * f) as u32,
                        },
                        factor: Some(f as u32),
                        adjusted: !ratio_eq(Ratio { num: f as u64, den: 1 }, s),
                    },
                )
            } else {
                None
            }
        },
        _ => Some(Resolution { target, native: target, factor: None, adjusted: false }),
    }
}

/// The whole factor a fixed-factor method runs at when `requested` is asked
/// for: the effective scale (the method's default where `requested` is not
/// above zero) rounded up and clamped to the method's bounds.
pub fn native_factor(method: &ScaleMethod, requested: Ratio) -> (f: u32)
    requires
        method.wf(),
        method.kind matches BackendKind::FixedScale(_),
        requested.wf(),
    ensures
        f == native_factor_for(method@, effective_scale(requested, method@)),
        method.min_scale.num <= f <= method.max_scale.num,
{
    let s = effective(requested, method);
    clamped_factor(method, s)
}

/// The scale asked for where it is above zero, else the method's default.
fn effective(requested: Ratio, method: &ScaleMethod) -> (s: Ratio)
    requires
        method.wf(),
        requested.wf(),
    ensures
        s == effective_scale(requested, method@),
        s.wf(),
{
    if requested.num > 0 {
        requested
    } else {
        match method.kind {
            BackendKind::FixedScale(_) => Ratio { num: 2, den: 1 },
            _ => method.min_scale,
        }
    }
}

/// `scale` rounded up and clamped to a fixed-factor method's bounds.
fn clamped_factor(method: &ScaleMethod, scale: Ratio) -> (f: u32)
    requires
        method.wf(),
        method.kind matches BackendKind::FixedScale(_),
        scale.wf(),
    ensures
        f == native_factor_for(method@, scale),
        method.min_scale.num <= f <= method.max_scale.num,
{
    let c = ceil_ratio(scale);
    let lo = method.min_scale.num;
    let hi = method.max_scale.num;
    assert(hi <= 6);
    if c < lo {
        lo as u32
    } else if c > hi {
        hi as u32
    } else {
        c as u32
    }
}

/// Works out the size of the result and the size the backend produces. A
/// shader backend renders the target size directly. A fixed-factor algorithm
/// runs at its native factor, also for an explicit size, and its output is
/// corrected to the target afterwards; `NativeTooLarge` where that output
/// would exceed `MAX_DIMENSION`.
pub fn resolve(input: Size, request: ScaleRequest, method: &ScaleMethod) -> (r: Result<Resolution, ScaleError>)
    requires
        input.wf(),
        request.wf(),
        method.wf(),
    ensures
        r == match resolution_of(input, request, method@) {
            Some(res) => Ok::<Resolution, ScaleError>(res),
            None => Err(ScaleError::NativeTooLarge),
        },
        r matches Ok(res) ==> res.target.wf() && res.native.wf(),
{
    let target = match request {
        ScaleRequest::Factor(q) => scaled_size(input, effective(q, method)),
        ScaleRequest::Resize(spec) => resize_target(spec, input),
    };
    match method.kind {
        BackendKind::FixedScale(_) => {
            let s = match request {
                ScaleRequest::Factor(q) => effective(q, method),
                ScaleRequest::Resize(_) => {
                    let across = Ratio { num: target.width as u64, den: input.width as u64 };
                    let down = Ratio { num: target.height as u64, den: input.height as u64 };
                    if ratio_less_or_equal(across, down) {
                        down
                    } else {
                        across
                    }
                },
            };
            let f = clamped_factor(method, s);
            proof {
                assert(input.width * f <= 16384 * 6 && input.height * f <= 16384 * 6) by (nonlinear_arith)
                    requires input.width <= 16384, input.height <= 16384, f <= 6;
                assert(input.width * f >= 1 && input.height * f >= 1) by (nonlinear_arith)
                    requires input.width >= 1, input.height >= 1, f >= 1;
            }
            if (input.width as u64) * (f as u64) <= MAX_DIMENSION as u64 && (input.height as u64) * (
            f as u64) <= MAX_DIMENSION as u64 {
                let adjusted = !ratio_equal(Ratio { num: f as u64, den: 1 }, s);
                Ok(
                    Resolution {
                        target,
                        native: Size { width: input.width * f, height: input.height * f },
                        factor: Some(f),
                        adjusted,
                    },
                )
            } else {
                Err(ScaleError::NativeTooLarge)
            }
        },
        _ => Ok(Resolution { target, native: target, factor: None, adjusted: false }),
    }
}

/// For a fixed-factor method and a requested scale, a run goes ahead at the
/// requested scale rounded up and clamped to the method's bounds, or, where
/// the requested scale is not above zero, at the method's default scale
/// rounded up and clamped the same way; its result has the size of the input
/// scaled by the effective scale. This holds wherever the algorithm's output
/// at that factor fits within `MAX_DIMENSION`.
pub proof fn lemma_fixed_factor_rule(input: Size, requested: Ratio, m: MethodView)
    requires
        m.kind matches BackendKind::FixedScale(_),
        input.width * native_factor_for(m, effective_scale(requested, m)) <= MAX_DIMENSION,
        input.height * native_factor_for(m, effective_scale(requested, m)) <= MAX_DIMENSION,
    ensures
        resolution_of(input, ScaleRequest::Factor(requested), m) matches Some(res) && res.factor
            == Some(native_factor_for(m, effective_scale(requested, m)) as u32) && res.native == (Size {
            width: (input.width * native_factor_for(m, effective_scale(requested, m))) as u32,
            height: (input.height * native_factor_for(m, effective_scale(requested, m))) as u32,
        }) && res.target == scale_size(input, effective_scale(requested, m)),
        requested.num > 0 ==> native_factor_for(m, effective_scale(requested, m)) == clamp_int(
            ceil_of(requested),
            m.min_scale.num as int,
            m.max_scale.num as int,
        ),
        requested.num == 0 ==> native_factor_for(m, effective_scale(requested, m)) == clamp_int(
            ceil_of(default_scale(m)),
            m.min_scale.num as int,
            m.max_scale.num as int,
        ),
{
}

/// What a plane becomes: the algorithm's output at `factor`, brought to
/// `target` with nearest-neighbour sampling where the sizes differ.
pub open spec fn plane_output(a: Algorithm, p: Seq<u8>, input: Size, factor: int, target: Size) -> Seq<u8> {
    reconciled(
        algorithm_output(a, p, input.width as nat, input.height as nat, factor),
        Size { width: (input.width * factor) as u32, height: (input.height * factor) as u32 },
        target,
        ResizeFilter::Nearest,
    )
}

/// What an image becomes under an alpha mode (`Auto` already resolved): the
/// merge of its scaled color and alpha planes (`Split`), its scaled color
/// plane (`Strip`), or the image scaled as it is (`Bypass`).
pub open spec fn upscaled_pixels(a: Algorithm, mode: AlphaMode, p: Seq<u8>, input: Size, factor: int, target: Size) -> Seq<u8> {
    match mode {
        AlphaMode::Split => merged_planes(
            plane_output(a, color_plane(p), input, factor, target),
            plane_output(a, alpha_plane(p), input, factor, target),
        ),
        AlphaMode::Strip => plane_output(a, color_plane(p), input, factor, target),
        _ => plane_output(a, p, input, factor, target),
    }
}

/// Scales one plane with a fixed-factor algorithm, then brings it to `target`.
pub fn scale_plane(a: Algorithm, img: &Image, factor: u32, target: Size) -> (r: Image)
    requires
        img.wf(),
        target.wf(),
        min_factor(a) <= factor <= max_factor(a),
        img.width * factor <= MAX_DIMENSION,
        img.height * factor <= MAX_DIMENSION,
    ensures
        r.wf(),
        r.size() == target,
        r.pixels@ == plane_output(a, img.pixels@, img.size(), factor as int, target),
        img.width * factor == target.width && img.height * factor == target.height ==> r.pixels@
            == algorithm_output(a, img.pixels@, img.width as nat, img.height as nat, factor as int),
        a == Algorithm::Xbrz && factor == 1 && img.size() == target ==> r.pixels@ == img.pixels@,
{
    let native = run_algorithm(a, img, factor);
    reconcile(native, target, ResizeFilter::Nearest)
}

/// Upscales an image with a fixed-factor method: resolves the sizes, scales
/// the planes the alpha mode calls for at the method's native factor, brings
/// each to the target size with nearest-neighbour sampling, and merges them.
pub fn upscale_fixed(method: &ScaleMethod, img: &Image, request: ScaleRequest, mode: AlphaMode) -> (r: Result<Image, ScaleError>)
    requires
        method.wf(),
        img.wf(),
        request.wf(),
    ensures
        !(method.kind matches BackendKind::FixedScale(_)) ==> r == Err::<Image, ScaleError>(ScaleError::ShaderBackend),
        method.kind matches BackendKind::FixedScale(a) ==> match resolution_of(img.size(), request, method@) {
            None => r == Err::<Image, ScaleError>(ScaleError::NativeTooLarge),
            Some(res) => r matches Ok(out) && out.wf() && out.size() == res.target && out.pixels@
                == upscaled_pixels(
                a,
                crate::alpha::effective_mode(mode, method.alpha),
                img.pixels@,
                img.size(),
                res.factor.unwrap() as int,
                res.target,
            ),
        },
{
    let a = match method.kind {
        BackendKind::FixedScale(a) => a,
        _ => return Err(ScaleError::ShaderBackend),
    };
    let res = resolve(img.dimensions(), request, method)?;
    let factor = match res.factor {
        Some(f) => f,
        None => return Err(ScaleError::ShaderBackend),
    };
    let target = res.target;
    match mode.resolve(method.alpha) {
        AlphaMode::Split => {
            let (rgb, alpha) = split_alpha(img);
            let scaled_rgb = scale_plane(a, &rgb, factor, target);
            let scaled_alpha = scale_plane(a, &alpha, factor, target);
            Ok(merge_alpha(&scaled_rgb, &scaled_alpha))
        },
        AlphaMode::Strip => {
            let (rgb, _alpha) = split_alpha(img);
            Ok(scale_plane(a, &rgb, factor, target))
        },
        _ => Ok(scale_plane(a, img, factor, target)),
    }
}

/// The number of planes an alpha mode scales.
pub open spec fn plane_count(mode: AlphaMode) -> int {
    match mode {
        AlphaMode::Split => 2,
        _ => 1,
    }
}

/// The planes an alpha mode scales, as bytes: color and alpha (`Split`),
/// color (`Strip`), or the image itself (`Bypass`).
pub open spec fn planes_of(p: Seq<u8>, mode: AlphaMode) -> Seq<Seq<u8>> {
    match mode {
        AlphaMode::Split => seq![color_plane(p), alpha_plane(p)],
        AlphaMode::Strip => seq![color_plane(p)],
        _ => seq![p],
    }
}

/// The image the scaled planes of a mode make: the merge of color and alpha
/// (`Split`), else the one plane.
pub open spec fn combined_planes(planes: Seq<Seq<u8>>, mode: AlphaMode) -> Seq<u8> {
    match mode {
        AlphaMode::Split => merged_planes(planes[0], planes[1]),
        _ => planes[0],
    }
}

/// The planes of an image that a backend scales under an alpha mode
/// (`Auto` already resolved), each of the image's size.
pub fn planes_for(img: &Image, mode: AlphaMode) -> (r: Vec<Image>)
    requires
        img.wf(),
        mode != AlphaMode::Auto,
    ensures
        r.len() == plane_count(mode),
        forall|i: int|
            0 <= i < r.len() ==> (#[trigger] r@[i]).wf() && r@[i].size() == img.size() && r@[i].pixels@
                == planes_of(img.pixels@, mode)[i],
{
    let mut r: Vec<Image> = Vec::new();
    match mode {
        AlphaMode::Split => {
            let (rgb, alpha) = split_alpha(img);
            r.push(rgb);
            r.push(alpha);
        },
        AlphaMode::Strip => {
            let (rgb, _alpha) = split_alpha(img);
            r.push(rgb);
        },
        _ => {
            r.push(img.duplicate());
        },
    }
    r
}

/// Puts scaled planes back together under an alpha mode (`Auto` already
/// resolved): merges color and alpha for `Split`, else hands back the plane.
pub fn combine_planes(planes: Vec<Image>, mode: AlphaMode) -> (r: Image)
    requires
        mode != AlphaMode::Auto,
        planes.len() == plane_count(mode),
        forall|i: int| 0 <= i < planes.len() ==> (#[trigger] planes@[i]).wf(),
        mode == AlphaMode::Split ==> planes@[0].size() == planes@[1].size(),
    ensures
        r.wf(),
        r.size() == planes@[0].size(),
        r.pixels@ == combined_planes(Seq::new(planes@.len(), |i: int| planes@[i].pixels@), mode),
{
    let ghost old_planes = planes@;
    let mut planes = planes;
    match mode {
        AlphaMode::Split => {
            let alpha = planes.pop().unwrap();
            let rgb = planes.pop().unwrap();
            assert(rgb == old_planes[0]);
            assert(alpha == old_planes[1]);
            merge_alpha(&rgb, &alpha)
        },
        _ => {
            let plane = planes.pop().unwrap();
            assert(plane == old_planes[0]);
            plane
        },
    }
}

/// Resizes an image as a resize text asked, with the given filter; an image
/// already of that size comes back unchanged.
pub fn resize_image(img: Image, spec: ResizeSpec, filter: ResizeFilter) -> (r: Image)
    requires
        img.wf(),
        spec matches ResizeSpec::Percent(q) ==> q.wf(),
    ensures
        r.wf(),
        r.size() == resize_target_of(spec, img.size()),
        img.size() == r.size() ==> r.pixels@ == img.pixels@,
        exact_filter(filter) ==> r.pixels@ == reconciled(img.pixels@, img.size(), r.size(), filter),
{
    let target = resize_target(spec, img.dimensions());
    reconcile(img, target, filter)
}

} // verus!
