use ra_pixelart_scale::geometry::{parse_resize_spec, resize_target, scaled_size, ResizeSpec, Size};
use ra_pixelart_scale::numbers::{parse_decimal, parse_scale, Ratio};
use ra_pixelart_scale::shader_chain::{
    compute_chain_output, compute_pass_sizes, AxisScale, PassScale, ScaleBasis,
};

fn ratio(num: u64, den: u64) -> Ratio {
    Ratio { num, den }
}

fn uniform_pass(basis: ScaleBasis, factor: Ratio) -> PassScale {
    PassScale { x: AxisScale { basis, factor }, y: AxisScale { basis, factor } }
}

#[test]
fn decimal_numbers_keep_their_digits() {
    assert_eq!(parse_decimal("2"), Some(ratio(2, 1)));
    assert_eq!(parse_decimal("2.5"), Some(ratio(25, 10)));
    assert_eq!(parse_decimal(".5"), Some(ratio(5, 10)));
    assert_eq!(parse_decimal("5."), Some(ratio(5, 1)));
    assert_eq!(parse_decimal("12.50"), Some(ratio(1250, 100)));
    assert_eq!(parse_decimal("100"), Some(ratio(100, 1)));
}

#[test]
fn malformed_decimal_numbers_are_refused() {
    assert_eq!(parse_decimal(""), None);
    assert_eq!(parse_decimal("."), None);
    assert_eq!(parse_decimal("1.2.3"), None);
    assert_eq!(parse_decimal("1e3"), None);
    assert_eq!(parse_decimal("-2"), None);
    assert_eq!(parse_decimal("1234567890123456789"), None);
    assert_eq!(parse_decimal("123456789012345678"), Some(ratio(123456789012345678, 1)));
}

#[test]
fn negative_scale_reads_as_zero() {
    assert_eq!(parse_scale("-1"), Some(ratio(0, 1)));
    assert_eq!(parse_scale("-0.5"), Some(ratio(0, 1)));
    assert_eq!(parse_scale("0"), Some(ratio(0, 1)));
    assert_eq!(parse_scale("2.5"), Some(ratio(25, 10)));
    assert_eq!(parse_scale("-"), None);
    assert_eq!(parse_scale("two"), None);
}

#[test]
fn resize_texts() {
    assert_eq!(parse_resize_spec("640x480"), Some(ResizeSpec::Exact { width: 640, height: 480 }));
    assert_eq!(parse_resize_spec("50%"), Some(ResizeSpec::Percent(ratio(50, 1))));
    assert_eq!(parse_resize_spec("12.5%"), Some(ResizeSpec::Percent(ratio(125, 10))));
}

#[test]
fn malformed_resize_texts_are_refused() {
    assert_eq!(parse_resize_spec(""), None);
    assert_eq!(parse_resize_spec("%"), None);
    assert_eq!(parse_resize_spec("640"), None);
    assert_eq!(parse_resize_spec("640x"), None);
    assert_eq!(parse_resize_spec("x480"), None);
    assert_eq!(parse_resize_spec("1x2x3"), None);
    assert_eq!(parse_resize_spec("640X480"), None);
    assert_eq!(parse_resize_spec("a%"), None);
}

#[test]
fn percent_resize_of_output() {
    let spec = parse_resize_spec("50%").unwrap();
    let base = Size { width: 200, height: 100 };
    assert_eq!(resize_target(spec, base), Size { width: 100, height: 50 });
}

#[test]
fn exact_resize_is_clamped_into_texture_limits() {
    let base = Size { width: 10, height: 10 };
    assert_eq!(
        resize_target(ResizeSpec::Exact { width: 0, height: 99999 }, base),
        Size { width: 1, height: 16384 }
    );
    assert_eq!(
        resize_target(ResizeSpec::Exact { width: 300, height: 200 }, base),
        Size { width: 300, height: 200 }
    );
}

#[test]
fn scaling_rounds_halves_up_and_clamps() {
    let s = Size { width: 3, height: 16 };
    assert_eq!(scaled_size(s, ratio(15, 10)), Size { width: 5, height: 24 });
    assert_eq!(scaled_size(s, ratio(25, 10)), Size { width: 8, height: 40 });
    assert_eq!(scaled_size(s, ratio(0, 1)), Size { width: 1, height: 1 });
    assert_eq!(scaled_size(Size { width: 4, height: 4 }, ratio(1000, 1)), Size { width: 4000, height: 4000 });
    assert_eq!(scaled_size(Size { width: 40, height: 4 }, ratio(1000, 1)), Size { width: 16384, height: 4000 });
}

#[test]
fn two_pass_chain_original_relative() {
    let passes = vec![
        uniform_pass(ScaleBasis::InputOfPass, ratio(2, 1)),
        uniform_pass(ScaleBasis::OriginalImage, ratio(1, 1)),
    ];
    let original = Size { width: 32, height: 32 };
    let viewport = Size { width: 128, height: 128 };
    let sizes = compute_pass_sizes(&passes, original, viewport);
    assert_eq!(sizes, vec![Size { width: 64, height: 64 }, Size { width: 32, height: 32 }]);
    assert_eq!(compute_chain_output(&passes, original, viewport), Size { width: 32, height: 32 });
}

#[test]
fn chain_output_clamps_huge_factors() {
    let passes = vec![uniform_pass(ScaleBasis::InputOfPass, ratio(1000, 1))];
    let original = Size { width: 4, height: 20 };
    let viewport = Size { width: 4, height: 4 };
    assert_eq!(
        compute_chain_output(&passes, original, viewport),
        Size { width: 4000, height: 16384 }
    );
    let shrink = vec![uniform_pass(ScaleBasis::InputOfPass, ratio(0, 1))];
    assert_eq!(compute_chain_output(&shrink, original, viewport), Size { width: 1, height: 1 });
}

#[test]
fn chain_axes_and_bases() {
    let passes = vec![
        PassScale {
            x: AxisScale { basis: ScaleBasis::ViewportOfChain, factor: ratio(1, 2) },
            y: AxisScale { basis: ScaleBasis::AbsoluteTexels, factor: ratio(300, 1) },
        },
        PassScale {
            x: AxisScale { basis: ScaleBasis::InputOfPass, factor: ratio(3, 1) },
            y: AxisScale { basis: ScaleBasis::OriginalImage, factor: ratio(15, 10) },
        },
    ];
    let original = Size { width: 10, height: 11 };
    let viewport = Size { width: 101, height: 50 };
    let sizes = compute_pass_sizes(&passes, original, viewport);
    assert_eq!(sizes, vec![Size { width: 51, height: 300 }, Size { width: 153, height: 17 }]);
    assert_eq!(compute_chain_output(&vec![], original, viewport), original);
}
