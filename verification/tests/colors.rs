use trackcard::cards::GradientColors;
use trackcard::color::{blend, blend_channel, luminance, Color, LUMINANCE_THRESHOLD};

fn opaque(r: u8, g: u8, b: u8) -> Color {
    Color { r, g, b, a: 255 }
}

#[test]
fn luminance_of_mid_gray() {
    assert_eq!(luminance(&opaque(128, 128, 128)), 215_860_000);
}

#[test]
fn luminance_of_black_and_white() {
    assert_eq!(luminance(&opaque(0, 0, 0)), 0);
    assert_eq!(luminance(&opaque(255, 255, 255)), 1_000_000_000);
}

#[test]
fn luminance_threshold_sides() {
    assert!(luminance(&opaque(100, 100, 100)) <= LUMINANCE_THRESHOLD);
    assert!(luminance(&opaque(118, 118, 118)) > LUMINANCE_THRESHOLD);
}

#[test]
fn luminance_ignores_alpha() {
    let translucent = Color { r: 37, g: 41, b: 43, a: 10 };
    assert_eq!(luminance(&translucent), luminance(&opaque(37, 41, 43)));
}

#[test]
fn blend_channel_near_half() {
    assert_eq!(blend_channel(0, 255, 127), 127);
    assert_eq!(blend_channel(255, 0, 127), 128);
}

#[test]
fn blend_extreme_factors() {
    let s = opaque(10, 20, 30);
    let e = opaque(50, 60, 70);
    assert_eq!(blend(&s, &e, 0), s);
    assert_eq!(blend(&s, &e, 255), e);
}

#[test]
fn gradient_blend_mixes_both_stops() {
    let colors = GradientColors {
        plain: opaque(1, 2, 3),
        gradient: Some((opaque(10, 20, 30), opaque(50, 60, 70))),
        custom_gradient: Some((opaque(0, 0, 0), opaque(255, 255, 255))),
        all_colors: vec![opaque(10, 20, 30)],
    };
    assert_eq!(colors.gradient_blend(false), opaque(29, 39, 49));
    assert_eq!(colors.gradient_blend(true), opaque(127, 127, 127));
}

#[test]
fn gradient_custom_blend_factor_ends() {
    let colors = GradientColors {
        plain: opaque(1, 2, 3),
        gradient: Some((opaque(10, 20, 30), opaque(50, 60, 70))),
        custom_gradient: None,
        all_colors: vec![],
    };
    assert_eq!(colors.gradient_custom_blend(0), opaque(10, 20, 30));
    assert_eq!(colors.gradient_custom_blend(255), opaque(50, 60, 70));
}

#[test]
fn color_override_replaces_one_stop() {
    let mut colors = GradientColors {
        plain: opaque(1, 2, 3),
        gradient: Some((opaque(10, 20, 30), opaque(50, 60, 70))),
        custom_gradient: Some((opaque(10, 20, 30), opaque(50, 60, 70))),
        all_colors: vec![],
    };
    let pick = trackcard::cards::ColorSelectorEmit {
        new_color: opaque(200, 0, 0),
        row: String::from("top"),
    };
    colors.apply_color_override(&pick);
    assert_eq!(colors.custom_gradient, Some((opaque(200, 0, 0), opaque(50, 60, 70))));
    let pick_bottom = trackcard::cards::ColorSelectorEmit {
        new_color: opaque(0, 0, 200),
        row: String::from("bottom"),
    };
    colors.apply_color_override(&pick_bottom);
    assert_eq!(colors.custom_gradient, Some((opaque(200, 0, 0), opaque(0, 0, 200))));
    assert_eq!(colors.gradient, Some((opaque(10, 20, 30), opaque(50, 60, 70))));
}

#[test]
fn gradient_stop_selection() {
    let colors = GradientColors {
        plain: opaque(1, 2, 3),
        gradient: Some((opaque(10, 20, 30), opaque(50, 60, 70))),
        custom_gradient: Some((opaque(5, 6, 7), opaque(8, 9, 10))),
        all_colors: vec![],
    };
    assert_eq!(colors.gradient_start(false), opaque(10, 20, 30));
    assert_eq!(colors.gradient_end(false), opaque(50, 60, 70));
    assert_eq!(colors.gradient_start(true), opaque(5, 6, 7));
    assert_eq!(colors.gradient_end(true), opaque(8, 9, 10));
}
