use riv::geometry::{destination_rect, fit_scale, Dims, Rect, Scale};
use riv::program::Program;

#[test]
fn fit_scale_no_upscale() {
    // Smaller than the viewport in both axes: exactly scale one.
    let s = fit_scale(Dims { width: 50, height: 50 }, Dims { width: 100, height: 100 });
    assert_eq!(s, Scale::one());
}

#[test]
fn fit_scale_equal_size_is_one() {
    let s = fit_scale(Dims { width: 100, height: 100 }, Dims { width: 100, height: 100 });
    assert_eq!(s, Scale::one());
}

#[test]
fn fit_scale_wide_image() {
    // Width is the binding axis.
    let s = fit_scale(Dims { width: 200, height: 100 }, Dims { width: 100, height: 100 });
    assert_eq!(s, Scale { num: 100, den: 200 });
}

#[test]
fn fit_scale_tall_image() {
    // Height is the binding axis.
    let s = fit_scale(Dims { width: 100, height: 200 }, Dims { width: 100, height: 100 });
    assert_eq!(s, Scale { num: 100, den: 200 });
}

#[test]
fn fit_then_destination_fills_viewport() {
    // Matching aspect ratios: the fitted destination is exactly the viewport.
    let tex = Dims { width: 200, height: 100 };
    let vp = Rect { x: 0, y: 0, width: 100, height: 50 };
    let s = fit_scale(tex, Dims { width: vp.width, height: vp.height });
    let d = destination_rect(tex, vp, s, 0, 0);
    assert_eq!(d, Rect { x: 0, y: 0, width: 100, height: 50 });
}

#[test]
fn destination_rect_centers() {
    let d = destination_rect(
        Dims { width: 100, height: 50 },
        Rect { x: 0, y: 0, width: 200, height: 100 },
        Scale { num: 1, den: 1 },
        0,
        0,
    );
    assert_eq!(d, Rect { x: 50, y: 25, width: 100, height: 50 });
}

#[test]
fn destination_rect_pans() {
    let d = destination_rect(
        Dims { width: 100, height: 50 },
        Rect { x: 0, y: 0, width: 200, height: 100 },
        Scale { num: 1, den: 1 },
        30,
        -10,
    );
    assert_eq!(d, Rect { x: 80, y: 15, width: 100, height: 50 });
}

#[test]
fn destination_rect_pan_is_unconstrained() {
    // The image may be panned entirely off-screen.
    let d = destination_rect(
        Dims { width: 100, height: 50 },
        Rect { x: 0, y: 0, width: 200, height: 100 },
        Scale { num: 1, den: 1 },
        100_000,
        0,
    );
    assert_eq!(d.x, 100_050);
}

#[test]
fn destination_rect_rounds_half_up() {
    // 3 pixels at half scale round to 2.
    let d = destination_rect(
        Dims { width: 3, height: 3 },
        Rect { x: 0, y: 0, width: 100, height: 100 },
        Scale { num: 1, den: 2 },
        0,
        0,
    );
    assert_eq!(d.width, 2);
    assert_eq!(d.height, 2);
}

#[test]
fn destination_rect_oversized_overhangs() {
    // An image wider than the viewport centers with a negative x.
    let d = destination_rect(
        Dims { width: 300, height: 100 },
        Rect { x: 0, y: 0, width: 200, height: 100 },
        Scale { num: 1, den: 1 },
        0,
        0,
    );
    assert_eq!(d.x, -50);
    assert_eq!(d.width, 300);
}

#[test]
fn default_actual_size_oversized_width() {
    assert!(Program::default_actual_size(
        &Dims { width: 300, height: 50 },
        &Dims { width: 200, height: 100 },
    ));
}

#[test]
fn default_actual_size_oversized_height() {
    assert!(Program::default_actual_size(
        &Dims { width: 100, height: 150 },
        &Dims { width: 200, height: 100 },
    ));
}

#[test]
fn default_actual_size_fits() {
    assert!(!Program::default_actual_size(
        &Dims { width: 200, height: 100 },
        &Dims { width: 200, height: 100 },
    ));
}
