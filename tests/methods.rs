use ra_pixelart_scale::alpha::AlphaMode;
use ra_pixelart_scale::backends::{run_algorithm, Algorithm};
use ra_pixelart_scale::catalog::{
    get_scaling_method, method_from_entry, BackendKind, CatalogError, MethodCatalog, ScaleMethod,
};
use ra_pixelart_scale::geometry::{ResizeSpec, Size};
use ra_pixelart_scale::numbers::Ratio;
use ra_pixelart_scale::pipeline::{
    native_factor, resolve, scale_plane, upscale_fixed, Resolution, ScaleError, ScaleRequest,
};
use ra_pixelart_scale::raster::Image;

const TABLE: &str = r#"{
    "rust-hqx": { "name": "hqx", "file": "", "minScale": 2, "maxScale": 4, "alpha": false },
    "rust-xbrz": { "name": "xBRZ", "file": "", "minScale": 1.0, "maxScale": 6, "alpha": true },
    "rust-eagle": { "name": "Eagle", "file": "", "minScale": 2, "maxScale": 2, "alpha": false },
    "rust-mmpx": { "name": "MMPX", "file": "", "minScale": 2, "maxScale": 2, "alpha": true },
    "rust-scalenx": { "name": "ScaleNx", "file": "", "minScale": 2, "maxScale": 3, "alpha": false },
    "rust-xbr": { "name": "xBR", "file": "", "minScale": 2, "maxScale": 2, "alpha": true },
    "scalefx-9x": { "name": "ScaleFX 9x", "file": "scalefx/scalefx-9x.slangp", "minScale": 9, "maxScale": 9, "alpha": false },
    "crt": { "name": "CRT", "file": "crt/crt.slangp", "minScale": 1.5, "maxScale": 100, "alpha": true }
}"#;

fn table() -> MethodCatalog {
    MethodCatalog::from_json(TABLE).unwrap()
}

fn method(name: &str) -> ScaleMethod {
    get_scaling_method(&table(), name, None).unwrap()
}

fn uniform(width: u32, height: u32, pixel: [u8; 4]) -> Image {
    let mut pixels = Vec::new();
    for _ in 0..(width * height) {
        pixels.extend_from_slice(&pixel);
    }
    Image::from_raw(width, height, pixels).unwrap()
}

fn patterned(width: u32, height: u32) -> Image {
    let mut pixels = Vec::new();
    for i in 0..(width * height) {
        let v = if (i / 3) % 2 == 0 { 200u8 } else { 20u8 };
        pixels.extend_from_slice(&[v, 255 - v, v / 2, 255]);
    }
    Image::from_raw(width, height, pixels).unwrap()
}

fn ratio(num: u64, den: u64) -> Ratio {
    Ratio { num, den }
}

#[test]
fn table_reads_methods() {
    let hqx = method("rust-hqx");
    assert_eq!(hqx.kind, BackendKind::FixedScale(Algorithm::Hqx));
    assert_eq!(hqx.name, "hqx");
    assert_eq!((hqx.min_scale, hqx.max_scale), (ratio(2, 1), ratio(4, 1)));
    assert!(!hqx.alpha);
    let xbrz = method("rust-xbrz");
    assert_eq!((xbrz.min_scale, xbrz.max_scale), (ratio(1, 1), ratio(6, 1)));
    let crt = method("crt");
    assert_eq!(crt.kind, BackendKind::ShaderPreset);
    assert_eq!(crt.file, "crt/crt.slangp");
    assert_eq!((crt.min_scale, crt.max_scale), (ratio(15, 10), ratio(100, 1)));
    assert!(crt.alpha);
    assert_eq!(table().keys.len(), 8);
}

#[test]
fn unknown_method_is_reported_with_its_name() {
    match get_scaling_method(&table(), "rust-HQX", None) {
        Err(CatalogError::MethodNotFound(n)) => assert_eq!(n, "rust-HQX"),
        other => panic!("unexpected {:?}", other),
    }
}

#[test]
fn custom_preset_bypasses_the_table() {
    let m = get_scaling_method(&table(), "no-such-method", Some("/tmp/my.slangp")).unwrap();
    assert_eq!(m.name, "custom");
    assert_eq!(m.kind, BackendKind::CustomPreset);
    assert_eq!(m.file, "/tmp/my.slangp");
    assert_eq!((m.min_scale, m.max_scale), (ratio(1, 1), ratio(1, 1)));
    assert!(m.alpha);
}

#[test]
fn malformed_tables_are_refused() {
    assert!(matches!(MethodCatalog::from_json("not json"), Err(CatalogError::InvalidCatalog)));
    assert!(matches!(MethodCatalog::from_json("[1, 2]"), Err(CatalogError::InvalidCatalog)));
    let missing = r#"{ "a": { "name": "A", "file": "a", "minScale": 1, "alpha": true } }"#;
    match MethodCatalog::from_json(missing) {
        Err(CatalogError::InvalidEntry(k)) => assert_eq!(k, "a"),
        other => panic!("unexpected {:?}", other),
    }
}

#[test]
fn entry_bounds_are_checked() {
    let s = |t: &str| Some(t.to_string());
    assert!(method_from_entry("crt", s("CRT"), s("c"), s("2"), s("1"), Some(true)).is_err());
    assert!(method_from_entry("crt", s("CRT"), s("c"), s("0.5"), s("3"), Some(true)).is_err());
    assert!(method_from_entry("rust-hqx", s("h"), s(""), s("2.5"), s("4"), Some(false)).is_err());
    assert!(method_from_entry("rust-hqx", s("h"), s(""), s("2"), s("5"), Some(false)).is_err());
    let m = method_from_entry("rust-hqx", s("h"), s(""), s("2.0"), s("4.0"), Some(false)).unwrap();
    assert_eq!((m.min_scale, m.max_scale), (ratio(2, 1), ratio(4, 1)));
    match method_from_entry("x", None, s(""), s("1"), s("1"), Some(true)) {
        Err(CatalogError::InvalidEntry(k)) => assert_eq!(k, "x"),
        other => panic!("unexpected {:?}", other),
    }
}

#[test]
fn native_factor_rounds_up_and_clamps() {
    let hqx = method("rust-hqx");
    assert_eq!(native_factor(&hqx, ratio(25, 10)), 3);
    assert_eq!(native_factor(&hqx, ratio(2, 1)), 2);
    assert_eq!(native_factor(&hqx, ratio(1, 1)), 2);
    assert_eq!(native_factor(&hqx, ratio(7, 1)), 4);
    assert_eq!(native_factor(&hqx, ratio(0, 1)), 2);
    let xbrz = method("rust-xbrz");
    assert_eq!(native_factor(&xbrz, ratio(0, 1)), 2);
    assert_eq!(native_factor(&xbrz, ratio(1, 2)), 1);
    let scalenx = method("rust-scalenx");
    assert_eq!(native_factor(&scalenx, ratio(21, 10)), 3);
}

#[test]
fn hqx_scenario_sixteen_to_forty() {
    let hqx = method("rust-hqx");
    let input = Size { width: 16, height: 16 };
    let res = resolve(input, ScaleRequest::Factor(ratio(25, 10)), &hqx).unwrap();
    assert_eq!(
        res,
        Resolution {
            target: Size { width: 40, height: 40 },
            native: Size { width: 48, height: 48 },
            factor: Some(3),
            adjusted: true,
        }
    );
    let img = patterned(16, 16);
    let native = run_algorithm(Algorithm::Hqx, &img, 3);
    assert_eq!((native.width, native.height), (48, 48));
    let out = scale_plane(Algorithm::Hqx, &img, 3, res.target);
    assert_eq!((out.width, out.height), (40, 40));
    let full = upscale_fixed(&hqx, &img, ScaleRequest::Factor(ratio(25, 10)), AlphaMode::Auto).unwrap();
    assert_eq!((full.width, full.height), (40, 40));
    assert_eq!(full.pixels.len(), 40 * 40 * 4);
}

#[test]
fn exact_scale_needs_no_adjustment() {
    let hqx = method("rust-hqx");
    let res = resolve(Size { width: 5, height: 7 }, ScaleRequest::Factor(ratio(4, 1)), &hqx).unwrap();
    assert_eq!(res.target, Size { width: 20, height: 28 });
    assert_eq!(res.native, Size { width: 20, height: 28 });
    assert!(!res.adjusted);
}

#[test]
fn default_scale_per_backend() {
    let xbrz = method("rust-xbrz");
    let res = resolve(Size { width: 5, height: 5 }, ScaleRequest::Factor(ratio(0, 1)), &xbrz).unwrap();
    assert_eq!(res.target, Size { width: 10, height: 10 });
    assert_eq!(res.factor, Some(2));
    let fx = method("scalefx-9x");
    let res = resolve(Size { width: 5, height: 5 }, ScaleRequest::Factor(ratio(0, 1)), &fx).unwrap();
    assert_eq!(res.target, Size { width: 45, height: 45 });
    assert_eq!(res.native, res.target);
    assert_eq!(res.factor, None);
    let crt = method("crt");
    let res = resolve(Size { width: 5, height: 5 }, ScaleRequest::Factor(ratio(0, 1)), &crt).unwrap();
    assert_eq!(res.target, Size { width: 8, height: 8 });
    let custom = get_scaling_method(&table(), "", Some("my.slangp")).unwrap();
    let res = resolve(Size { width: 5, height: 7 }, ScaleRequest::Factor(ratio(0, 1)), &custom).unwrap();
    assert_eq!(res.target, Size { width: 5, height: 7 });
    assert_eq!(res.native, res.target);
}

#[test]
fn plane_at_native_size_is_not_resampled() {
    let img = patterned(6, 5);
    let same = scale_plane(Algorithm::Xbrz, &img, 1, Size { width: 6, height: 5 });
    assert_eq!(same.pixels, img.pixels);
    let native = run_algorithm(Algorithm::Mmpx, &img, 2);
    let planed = scale_plane(Algorithm::Mmpx, &img, 2, Size { width: 12, height: 10 });
    assert_eq!(planed.pixels, native.pixels);
}

#[test]
fn explicit_size_request() {
    let crt = method("crt");
    let res = resolve(
        Size { width: 20, height: 10 },
        ScaleRequest::Resize(ResizeSpec::Exact { width: 33, height: 17 }),
        &crt,
    )
    .unwrap();
    assert_eq!(res.target, Size { width: 33, height: 17 });
    assert_eq!(res.native, res.target);
    let hqx = method("rust-hqx");
    let res = resolve(
        Size { width: 20, height: 10 },
        ScaleRequest::Resize(ResizeSpec::Percent(ratio(250, 1))),
        &hqx,
    )
    .unwrap();
    assert_eq!(res.target, Size { width: 50, height: 25 });
    assert_eq!(res.native, Size { width: 60, height: 30 });
    assert_eq!(res.factor, Some(3));
}

#[test]
fn explicit_size_uses_the_larger_axis_ratio() {
    let hqx = method("rust-hqx");
    let res = resolve(
        Size { width: 20, height: 10 },
        ScaleRequest::Resize(ResizeSpec::Exact { width: 50, height: 30 }),
        &hqx,
    )
    .unwrap();
    assert_eq!(res.target, Size { width: 50, height: 30 });
    assert_eq!(res.factor, Some(3));
    assert_eq!(res.native, Size { width: 60, height: 30 });
    let res = resolve(
        Size { width: 20, height: 10 },
        ScaleRequest::Resize(ResizeSpec::Exact { width: 30, height: 80 }),
        &hqx,
    )
    .unwrap();
    assert_eq!(res.factor, Some(4));
    assert_eq!(res.native, Size { width: 80, height: 40 });
}

#[test]
fn catalog_holds_every_key_of_the_table() {
    let t = table();
    let mut keys = t.keys.clone();
    keys.sort();
    assert_eq!(
        keys,
        vec!["crt", "rust-eagle", "rust-hqx", "rust-mmpx", "rust-scalenx", "rust-xbr", "rust-xbrz", "scalefx-9x"]
    );
    for (key, m) in t.keys.iter().zip(t.methods.iter()) {
        let fixed = matches!(m.kind, BackendKind::FixedScale(_));
        assert_eq!(fixed, key.starts_with("rust-"));
    }
    let fx = method("scalefx-9x");
    assert_eq!(fx.name, "ScaleFX 9x");
    assert_eq!(fx.file, "scalefx/scalefx-9x.slangp");
    assert_eq!((fx.min_scale, fx.max_scale), (ratio(9, 1), ratio(9, 1)));
    assert!(!fx.alpha);
}

#[test]
fn wrongly_typed_fields_are_refused() {
    let text = r#"{ "a": { "name": "A", "file": "a", "minScale": "1", "maxScale": 2, "alpha": true } }"#;
    assert!(matches!(MethodCatalog::from_json(text), Err(CatalogError::InvalidEntry(_))));
    let text = r#"{ "a": { "name": "A", "file": "a", "minScale": 1, "maxScale": 2, "alpha": 1 } }"#;
    assert!(matches!(MethodCatalog::from_json(text), Err(CatalogError::InvalidEntry(_))));
    assert!(MethodCatalog::from_json("{}").unwrap().keys.is_empty());
}

#[test]
fn too_large_native_output_is_refused() {
    let xbrz = method("rust-xbrz");
    let r = resolve(Size { width: 10000, height: 1 }, ScaleRequest::Factor(ratio(2, 1)), &xbrz);
    assert_eq!(r, Err(ScaleError::NativeTooLarge));
    let img = uniform(10000, 1, [1, 2, 3, 4]);
    assert!(matches!(
        upscale_fixed(&xbrz, &img, ScaleRequest::Factor(ratio(2, 1)), AlphaMode::Auto),
        Err(ScaleError::NativeTooLarge)
    ));
}

#[test]
fn shader_methods_are_not_run_here() {
    let crt = method("crt");
    let img = uniform(2, 2, [1, 2, 3, 4]);
    assert!(matches!(
        upscale_fixed(&crt, &img, ScaleRequest::Factor(ratio(2, 1)), AlphaMode::Auto),
        Err(ScaleError::ShaderBackend)
    ));
}

#[test]
fn every_algorithm_enlarges() {
    let img = patterned(6, 5);
    for (a, f) in [
        (Algorithm::Xbrz, 2u32),
        (Algorithm::Xbrz, 6),
        (Algorithm::Xbr, 2),
        (Algorithm::ScaleNx, 2),
        (Algorithm::ScaleNx, 3),
        (Algorithm::Eagle, 2),
        (Algorithm::Mmpx, 2),
        (Algorithm::Hqx, 2),
        (Algorithm::Hqx, 3),
        (Algorithm::Hqx, 4),
    ] {
        let out = run_algorithm(a, &img, f);
        assert_eq!((out.width, out.height), (6 * f, 5 * f));
        assert_eq!(out.pixels.len(), (6 * f * 5 * f * 4) as usize);
    }
}

#[test]
fn uniform_images_stay_uniform() {
    let img = uniform(4, 3, [10, 20, 30, 255]);
    for a in [Algorithm::Eagle, Algorithm::Mmpx, Algorithm::Hqx, Algorithm::ScaleNx] {
        let out = run_algorithm(a, &img, 2);
        assert!(out.pixels.chunks(4).all(|p| p == [10, 20, 30, 255]), "{:?}", a);
    }
}

#[test]
fn split_mode_keeps_alpha_through_an_opaque_backend() {
    let eagle = method("rust-eagle");
    let img = uniform(4, 4, [50, 60, 70, 100]);
    let out = upscale_fixed(&eagle, &img, ScaleRequest::Factor(ratio(2, 1)), AlphaMode::Auto).unwrap();
    assert_eq!((out.width, out.height), (8, 8));
    assert!(out.pixels.chunks(4).all(|p| p == [50, 60, 70, 100]));
    let stripped = upscale_fixed(&eagle, &img, ScaleRequest::Factor(ratio(2, 1)), AlphaMode::Strip).unwrap();
    assert!(stripped.pixels.chunks(4).all(|p| p == [50, 60, 70, 255]));
}

#[test]
fn algorithm_names() {
    assert_eq!(Algorithm::from_name("rust-xbrz"), Some(Algorithm::Xbrz));
    assert_eq!(Algorithm::from_name("rust-xbr"), Some(Algorithm::Xbr));
    assert_eq!(Algorithm::from_name("rust-scalenx"), Some(Algorithm::ScaleNx));
    assert_eq!(Algorithm::from_name("rust-eagle"), Some(Algorithm::Eagle));
    assert_eq!(Algorithm::from_name("rust-mmpx"), Some(Algorithm::Mmpx));
    assert_eq!(Algorithm::from_name("rust-hqx"), Some(Algorithm::Hqx));
    assert_eq!(Algorithm::from_name("xbrz"), None);
    assert_eq!(Algorithm::Hqx.factor_bounds(), (2, 4));
    assert_eq!(Algorithm::Xbrz.factor_bounds(), (1, 6));
}
