//! Image sizes, the rounding and clamping every produced size goes through,
//! and explicit resize targets written as `WxH` or `N%`.
use vstd::prelude::*;
use crate::text::chars_of;
use crate::numbers::{
    Ratio, round_scaled, round_percent, parse_whole_chars, parse_decimal_chars,
    whole_text_value, decimal_text_value, mul_wide,
};

verus! {

/// The largest width or height of a texture, and so of any produced size.
pub const MAX_DIMENSION: u32 = 16384;

/// A width and a height in pixels.
#[derive(Clone, Copy, Debug, PartialEq, Eq, Structural)]
pub struct Size {
    pub width: u32,
    pub height: u32,
}

impl Size {
    /// Both dimensions lie in `1..=MAX_DIMENSION`.
    pub open spec fn wf(&self) -> bool {
        1 <= self.width <= MAX_DIMENSION && 1 <= self.height <= MAX_DIMENSION
    }
}

/// `v` brought into `1..=MAX_DIMENSION`.
pub open spec fn clamp_dimension(v: int) -> int {
    if v < 1 {
        1
    } else if v > MAX_DIMENSION {
        MAX_DIMENSION as int
    } else {
        v
    }
}

/// A dimension scaled by `r`: rounded to the nearest integer, then clamped.
pub open spec fn scale_dimension(n: int, r: Ratio) -> int {
    clamp_dimension(round_scaled(n, r))
}

/// Both dimensions of `s` scaled by `r`.
pub open spec fn scale_size(s: Size, r: Ratio) -> Size {
    Size {
        width: scale_dimension(s.width as int, r) as u32,
        height: scale_dimension(s.height as int, r) as u32,
    }
}

/// Brings a value into `1..=MAX_DIMENSION`.
pub fn clamp_to_dimension(v: u128) -> (r: u32)
    ensures
        r == clamp_dimension(v as int),
{
    if v < 1 {
        1
    } else if v > MAX_DIMENSION as u128 {
        MAX_DIMENSION
    } else {
        v as u32
    }
}

/// `n * r`, rounded to the nearest integer (halves up) and clamped to
/// `1..=MAX_DIMENSION`.
pub fn scaled_dimension(n: u32, r: Ratio) -> (d: u32)
    requires
        r.wf(),
    ensures
        d == scale_dimension(n as int, r),
{
    let p = mul_wide(n as u64, r.num);
    proof {
        assert(n * r.num <= u32::MAX * u64::MAX) by (nonlinear_arith)
            requires n <= u32::MAX, r.num <= u64::MAX;
    }
    let v = (2 * p + r.den as u128) / (2 * r.den as u128);
    proof {
        assert(2 * n * r.num == 2 * (n * r.num)) by (nonlinear_arith);
    }
    clamp_to_dimension(v)
}

/// Both dimensions of `s` scaled by `r`.
pub fn scaled_size(s: Size, r: Ratio) -> (t: Size)
    requires
        r.wf(),
    ensures
        t == scale_size(s, r),
        t.wf(),
{
    Size { width: scaled_dimension(s.width, r), height: scaled_dimension(s.height, r) }
}

/// An explicit final size: exact dimensions, or a percentage of the size the
/// image has when it is resized.
#[derive(Clone, Copy, Debug, PartialEq, Eq, Structural)]
pub enum ResizeSpec {
    Exact { width: u64, height: u64 },
    Percent(Ratio),
}

/// The `WxH` text splits at `i`, its `x`, into two whole numbers.
pub open spec fn exact_split_at(s: Seq<char>, i: int) -> bool {
    &&& 0 <= i < s.len()
    &&& s[i] == 'x'
    &&& whole_text_value(s.take(i)).is_some()
    &&& whole_text_value(s.skip(i + 1)).is_some()
}

/// What a resize text means: `N%` with `N` a decimal number, or `WxH` with
/// `W` and `H` whole numbers; anything else means nothing.
pub open spec fn resize_spec_of(s: Seq<char>) -> Option<ResizeSpec> {
    if s.len() >= 1 && s.last() == '%' {
        match decimal_text_value(s.drop_last()) {
            Some(q) => Some(ResizeSpec::Percent(q)),
            None => None,
        }
    } else if exists|i: int| exact_split_at(s, i) {
        let i = choose|i: int| exact_split_at(s, i);
        Some(
            ResizeSpec::Exact {
                width: whole_text_value(s.take(i)).unwrap(),
                height: whole_text_value(s.skip(i + 1)).unwrap(),
            },
        )
    } else {
        None
    }
}

/// The size an image of size `base` is resized to.
pub open spec fn resize_target_of(spec: ResizeSpec, base: Size) -> Size {
    match spec {
        ResizeSpec::Exact { width, height } => Size {
            width: clamp_dimension(width as int) as u32,
            height: clamp_dimension(height as int) as u32,
        },
        ResizeSpec::Percent(q) => Size {
            width: clamp_dimension(round_percent(base.width as int, q)) as u32,
            height: clamp_dimension(round_percent(base.height as int, q)) as u32,
        },
    }
}

/// A whole number holds no `x`.
proof fn lemma_whole_has_no_x(s: Seq<char>, k: int)
    requires
        whole_text_value(s).is_some(),
        0 <= k < s.len(),
    ensures
        s[k] != 'x',
{
    assert(crate::numbers::is_digit(s[k]));
}

/// Reads a resize text: `WxH` or `N%`.
pub fn parse_resize_spec(text: &str) -> (r: Option<ResizeSpec>)
    ensures
        r == resize_spec_of(text@),
        r matches Some(ResizeSpec::Percent(q)) ==> q.wf(),
{
    let cs = chars_of(text);
    let n = cs.len();
    if n >= 1 && cs[n - 1] == '%' {
        assert(cs@.subrange(0, n - 1) =~= text@.drop_last());
        return match parse_decimal_chars(&cs, 0, n - 1) {
            Some(q) => Some(ResizeSpec::Percent(q)),
            None => None,
        };
    }
    let ghost s = text@;
    // The first `x` is the only place a `WxH` text can split.
    let mut i: usize = 0;
    while i < n && cs[i] != 'x'
        invariant
            i <= n == cs.len(),
            cs@ == s,
            forall|k: int| 0 <= k < i ==> cs@[k] != 'x',
        decreases n - i,
    {
        i = i + 1;
    }
    if i == n {
        proof {
            assert forall|j: int| !exact_split_at(s, j) by {
                if 0 <= j < s.len() {
                    assert(cs@[j] != 'x');
                }
            }
        }
        return None;
    }
    assert(cs@.subrange(0, i as int) =~= s.take(i as int));
    assert(cs@.subrange(i + 1, n as int) =~= s.skip(i + 1));
    let w = parse_whole_chars(&cs, 0, i);
    let h = parse_whole_chars(&cs, i + 1, n);
    proof {
        // Any split point is this first `x`.
        assert forall|j: int| exact_split_at(s, j) implies j == i by {
            if j < i {
            } else if j > i {
                lemma_whole_has_no_x(s.take(j), i as int);
                assert(s.take(j)[i as int] == s[i as int]);
            }
        }
    }
    match (w, h) {
        (Some(width), Some(height)) => {
            proof {
                assert(exact_split_at(s, i as int));
                let j = choose|j: int| exact_split_at(s, j);
                assert(j == i);
            }
            Some(ResizeSpec::Exact { width, height })
        },
        _ => {
            proof {
                assert(!exact_split_at(s, i as int));
            }
            None
        },
    }
}

/// The size an image of size `base` is resized to under `spec`.
pub fn resize_target(spec: ResizeSpec, base: Size) -> (t: Size)
    requires
        match spec {
            ResizeSpec::Percent(q) => q.wf(),
            _ => true,
        },
    ensures
        t == resize_target_of(spec, base),
        t.wf(),
{
    match spec {
        ResizeSpec::Exact { width, height } => Size {
            width: clamp_to_dimension(width as u128),
            height: clamp_to_dimension(height as u128),
        },
        ResizeSpec::Percent(q) => Size {
            width: percent_dimension(base.width, q),
            height: percent_dimension(base.height, q),
        },
    }
}

/// `n * q / 100`, rounded to the nearest integer (halves up) and clamped.
fn percent_dimension(n: u32, q: Ratio) -> (d: u32)
    requires
        q.wf(),
    ensures
        d == clamp_dimension(round_percent(n as int, q)),
{
    let p = mul_wide(n as u64, q.num);
    proof {
        assert(n * q.num <= u32::MAX * u64::MAX) by (nonlinear_arith)
            requires n <= u32::MAX, q.num <= u64::MAX;
    }
    let v = (2 * p + 100 * (q.den as u128)) / (200 * (q.den as u128));
    proof {
        assert(2 * n * q.num == 2 * (n * q.num)) by (nonlinear_arith);
    }
    clamp_to_dimension(v)
}

} // verus!
