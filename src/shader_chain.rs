//! The output size of each pass of a shader chain, where each axis of a pass
//! scales relative to its input, the viewport, or the original image, or
//! names an absolute size.
use vstd::prelude::*;
use crate::numbers::{Ratio, round_scaled};
use crate::geometry::{Size, MAX_DIMENSION, clamp_dimension, scaled_dimension};

verus! {

/// What one axis of a pass scales.
#[derive(Clone, Copy, Debug, PartialEq, Eq, Structural)]
pub enum ScaleBasis {
    /// The pass's input, the previous pass's output.
    InputOfPass,
    /// Nothing: the factor is the size in texels.
    AbsoluteTexels,
    /// The viewport the chain renders into.
    ViewportOfChain,
    /// The image the chain started from.
    OriginalImage,
}

/// How one axis of a pass is sized.
#[derive(Clone, Copy, Debug, PartialEq, Eq, Structural)]
pub struct AxisScale {
    pub basis: ScaleBasis,
    pub factor: Ratio,
}

/// How both axes of a pass are sized.
#[derive(Clone, Copy, Debug, PartialEq, Eq, Structural)]
pub struct PassScale {
    pub x: AxisScale,
    pub y: AxisScale,
}

impl PassScale {
    pub open spec fn wf(&self) -> bool {
        self.x.factor.wf() && self.y.factor.wf()
    }
}

/// Every pass has well-formed factors.
pub open spec fn passes_wf(passes: Seq<PassScale>) -> bool {
    forall|i: int| 0 <= i < passes.len() ==> (#[trigger] passes[i]).wf()
}

/// One axis of a pass's output, given that axis of its input, of the
/// viewport and of the original image.
pub open spec fn axis_output(a: AxisScale, input: int, viewport: int, original: int) -> int {
    match a.basis {
        ScaleBasis::InputOfPass => clamp_dimension(round_scaled(input, a.factor)),
        ScaleBasis::AbsoluteTexels => clamp_dimension(round_scaled(1, a.factor)),
        ScaleBasis::ViewportOfChain => clamp_dimension(round_scaled(viewport, a.factor)),
        ScaleBasis::OriginalImage => clamp_dimension(round_scaled(original, a.factor)),
    }
}

/// A pass's output size.
pub open spec fn pass_output(p: PassScale, input: Size, viewport: Size, original: Size) -> Size {
    Size {
        width: axis_output(p.x, input.width as int, viewport.width as int, original.width as int) as u32,
        height: axis_output(p.y, input.height as int, viewport.height as int, original.height as int) as u32,
    }
}

/// The output sizes of the passes, in order: the first pass reads the
/// original image, each later one the output of the pass before it.
pub open spec fn chain_sizes(passes: Seq<PassScale>, original: Size, viewport: Size) -> Seq<Size>
    decreases passes.len(),
{
    if passes.len() == 0 {
        Seq::empty()
    } else {
        let before = chain_sizes(passes.drop_last(), original, viewport);
        let input = if before.len() == 0 { original } else { before.last() };
        before.push(pass_output(passes.last(), input, viewport, original))
    }
}

/// The size the chain renders: the last pass's output, or the original size
/// when there are no passes.
pub open spec fn chain_output(passes: Seq<PassScale>, original: Size, viewport: Size) -> Size {
    let sizes = chain_sizes(passes, original, viewport);
    if sizes.len() == 0 { original } else { sizes.last() }
}

/// Every pass's output lies within `1..=MAX_DIMENSION` on both axes, whatever
/// the factors declared.
pub proof fn lemma_chain_sizes_in_bounds(passes: Seq<PassScale>, original: Size, viewport: Size)
    ensures
        forall|i: int|
            0 <= i < chain_sizes(passes, original, viewport).len() ==> (#[trigger] chain_sizes(
                passes,
                original,
                viewport,
            )[i]).wf(),
    decreases passes.len(),
{
    if passes.len() > 0 {
        lemma_chain_sizes_in_bounds(passes.drop_last(), original, viewport);
        let before = chain_sizes(passes.drop_last(), original, viewport);
        let input = if before.len() == 0 { original } else { before.last() };
        lemma_pass_output_in_bounds(passes.last(), input, viewport, original);
        let all = chain_sizes(passes, original, viewport);
        assert forall|i: int| 0 <= i < all.len() implies (#[trigger] all[i]).wf() by {
            if i < before.len() {
                assert(all[i] == before[i]);
            }
        }
    }
}

/// A pass's output lies within `1..=MAX_DIMENSION` on both axes.
pub proof fn lemma_pass_output_in_bounds(p: PassScale, input: Size, viewport: Size, original: Size)
    ensures
        pass_output(p, input, viewport, original).wf(),
{
    let w = axis_output(p.x, input.width as int, viewport.width as int, original.width as int);
    let h = axis_output(p.y, input.height as int, viewport.height as int, original.height as int);
    assert(1 <= w <= MAX_DIMENSION);
    assert(1 <= h <= MAX_DIMENSION);
}

/// The chain's output lies within `1..=MAX_DIMENSION` on both axes, whatever
/// the factors declared, for an original image of a valid size.
pub proof fn lemma_chain_output_in_bounds(passes: Seq<PassScale>, original: Size, viewport: Size)
    requires
        original.wf(),
    ensures
        chain_output(passes, original, viewport).wf(),
{
    lemma_chain_sizes_in_bounds(passes, original, viewport);
}

/// One axis of a pass's output.
fn axis_size(a: AxisScale, input: u32, viewport: u32, original: u32) -> (d: u32)
    requires
        a.factor.wf(),
    ensures
        d == axis_output(a, input as int, viewport as int, original as int),
{
    match a.basis {
        ScaleBasis::InputOfPass => scaled_dimension(input, a.factor),
        ScaleBasis::AbsoluteTexels => scaled_dimension(1, a.factor),
        ScaleBasis::ViewportOfChain => scaled_dimension(viewport, a.factor),
        ScaleBasis::OriginalImage => scaled_dimension(original, a.factor),
    }
}

/// A pass's output size.
pub fn pass_size(p: PassScale, input: Size, viewport: Size, original: Size) -> (s: Size)
    requires
        p.wf(),
    ensures
        s == pass_output(p, input, viewport, original),
        s.wf(),
{
    Size {
        width: axis_size(p.x, input.width, viewport.width, original.width),
        height: axis_size(p.y, input.height, viewport.height, original.height),
    }
}

/// The output size of every pass, in order.
pub fn compute_pass_sizes(passes: &Vec<PassScale>, original: Size, viewport: Size) -> (r: Vec<Size>)
    requires
        passes_wf(passes@),
    ensures
        r@ == chain_sizes(passes@, original, viewport),
        r.len() == passes.len(),
        forall|i: int| 0 <= i < r.len() ==> (#[trigger] r@[i]).wf(),
{
    let mut r: Vec<Size> = Vec::new();
    let mut current = original;
    let mut i: usize = 0;
    while i < passes.len()
        invariant
            i <= passes.len(),
            passes_wf(passes@),
            r@ == chain_sizes(passes@.take(i as int), original, viewport),
            r.len() == i,
            current == (if i == 0 { original } else { r@.last() }),
            forall|k: int| 0 <= k < r.len() ==> (#[trigger] r@[k]).wf(),
        decreases passes.len() - i,
    {
        let p = passes[i];
        assert(passes@[i as int].wf());
        let next = pass_size(p, current, viewport, original);
        proof {
            let t = passes@.take(i as int + 1);
            assert(t.drop_last() =~= passes@.take(i as int));
            assert(t.last() == p);
        }
        r.push(next);
        current = next;
        i = i + 1;
    }
    assert(passes@.take(i as int) =~= passes@);
    r
}

/// The size the chain renders: the last pass's output, or `original` when
/// there are no passes.
pub fn compute_chain_output(passes: &Vec<PassScale>, original: Size, viewport: Size) -> (s: Size)
    requires
        passes_wf(passes@),
        original.wf(),
    ensures
        s == chain_output(passes@, original, viewport),
        s.wf(),
{
    let sizes = compute_pass_sizes(passes, original, viewport);
    if sizes.len() == 0 {
        original
    } else {
        sizes[sizes.len() - 1]
    }
}

} // verus!
