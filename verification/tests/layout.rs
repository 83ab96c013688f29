use trackcard::cards::{CanvasAssets, GradientColors};
use trackcard::color::Color;
use trackcard::layout::{compute_layout, mode_of, BackgroundMode, TextPaint};
use trackcard::model::CardData;
use trackcard::text::{fit_scale_for_lines, has_cjk_text, is_cjk_char, FontAssets};

fn opaque(v: u8) -> Color {
    Color { r: v, g: v, b: v, a: 255 }
}

fn gray_colors(v: u8) -> GradientColors {
    let c = opaque(v);
    GradientColors {
        plain: c,
        gradient: Some((c, c)),
        custom_gradient: Some((c, c)),
        all_colors: vec![c],
    }
}

fn card(name: &str, album: &str, album_type: &str, artists: &str, genres: &str) -> CardData {
    CardData {
        track_id: String::from("t"),
        name: String::from(name),
        album: String::from(album),
        album_type: String::from(album_type),
        artists: String::from(artists),
        genres: String::from(genres),
        jacket_size: 640,
        jacket_bytes: vec![],
    }
}

fn fonts() -> FontAssets {
    FontAssets::load(ttf_noto_sans::REGULAR.to_vec(), ttf_noto_sans::REGULAR.to_vec()).unwrap()
}

fn scales() -> Vec<u32> {
    vec![60_000, 60_000, 60_000, 10_000]
}

#[test]
fn canvas_geometry_from_render_size() {
    let assets = CanvasAssets {
        jacket_size: 480,
        jacket: image::DynamicImage::new_rgba8(1, 1),
        colors: gray_colors(100),
    };
    assert_eq!(assets.text_area_width(), 403);
    assert_eq!(assets.canvas_width(), 973);
    assert_eq!(assets.canvas_height(), 540);
    assert_eq!(assets.text_offset_x(), 535);
}

#[test]
fn canvas_geometry_small() {
    let assets = CanvasAssets {
        jacket_size: 100,
        jacket: image::DynamicImage::new_rgba8(1, 1),
        colors: gray_colors(100),
    };
    assert_eq!(assets.text_area_width(), 84);
    assert_eq!(assets.canvas_width(), 274);
    assert_eq!(assets.canvas_height(), 160);
}

#[test]
fn jacket_size_can_be_replaced() {
    let mut assets = CanvasAssets {
        jacket_size: 480,
        jacket: image::DynamicImage::new_rgba8(1, 1),
        colors: gray_colors(100),
    };
    assets.set_jacket_size(600);
    assert_eq!(assets.jacket_size, 600);
    assert_eq!(assets.canvas_height(), 660);
}

#[test]
fn mode_strings() {
    assert_eq!(mode_of(&String::from("plain")), BackgroundMode::Plain);
    assert_eq!(mode_of(&String::from("inverted")), BackgroundMode::Inverted);
    assert_eq!(mode_of(&String::from("custom")), BackgroundMode::Custom);
    assert_eq!(mode_of(&String::from("gradient")), BackgroundMode::Gradient);
    assert_eq!(mode_of(&String::from("anything else")), BackgroundMode::Gradient);
}

#[test]
fn cjk_detection() {
    assert!(is_cjk_char('あ'));
    assert!(is_cjk_char('漢'));
    assert!(is_cjk_char('한'));
    assert!(!is_cjk_char('a'));
    assert!(has_cjk_text("around こんにちは"));
    assert!(!has_cjk_text("plain latin"));
}

#[test]
fn bright_background_paints() {
    let f = fonts();
    let c = card("A", "Album", "album", "Someone", "#pop");
    let plans = compute_layout(&c, &f, &scales(), &gray_colors(150), BackgroundMode::Plain, 480);
    assert_eq!(plans.len(), 4);
    assert_eq!(plans[0].paint, TextPaint::Black);
    assert_eq!(plans[1].paint, TextPaint::Knockout);
    assert_eq!(plans[2].paint, TextPaint::Knockout);
    assert_eq!(plans[3].paint, TextPaint::Knockout);
    assert!(plans[3].boxed);
}

#[test]
fn dark_background_paints_white() {
    let f = fonts();
    let c = card("A", "Album", "album", "Someone", "#pop");
    let plans = compute_layout(&c, &f, &scales(), &gray_colors(80), BackgroundMode::Plain, 480);
    assert_eq!(plans[0].paint, TextPaint::White);
    assert_eq!(plans[1].paint, TextPaint::White);
    assert_eq!(plans[2].paint, TextPaint::White);
    assert_eq!(plans[3].paint, TextPaint::White);
    assert!(!plans[3].boxed);
}

#[test]
fn single_album_row_omitted_genres_pinned() {
    let f = fonts();
    let single = card("Name", "Album", "single", "Someone", "#pop");
    let full = card("Name", "Album", "album", "Someone", "#pop");
    let colors = gray_colors(100);
    let plans_single = compute_layout(&single, &f, &scales(), &colors, BackgroundMode::Plain, 480);
    let plans_full = compute_layout(&full, &f, &scales(), &colors, BackgroundMode::Plain, 480);
    assert!(!plans_single[1].draw);
    assert!(plans_full[1].draw);
    assert_eq!(plans_single[3].y, 495);
    assert_eq!(plans_full[3].y, 495);
    assert_eq!(plans_single[2].y, plans_full[2].y);
}

#[test]
fn empty_field_not_drawn() {
    let f = fonts();
    let c = card("Name", "", "album", "Someone", "#pop");
    let plans = compute_layout(&c, &f, &scales(), &gray_colors(100), BackgroundMode::Plain, 480);
    assert!(!plans[1].draw);
    assert_eq!(plans[2].y, plans[0].y + plans[0].box_height as i64 + 60
        + (if plans[2].box_height < 11 { 0 } else if plans[2].box_height < 48 {
            ((1667 * plans[2].box_height + 5000) / 10000) as i64
        } else { 8 })
        - (if plans[0].box_height < 11 { 0 } else if plans[0].box_height < 48 {
            ((1667 * plans[0].box_height + 5000) / 10000) as i64
        } else { 8 }));
}

#[test]
fn genres_single_line_name_wraps() {
    let f = fonts();
    let long = "alpha beta gamma delta epsilon zeta eta theta";
    let c = card(long, "B", "album", "C", long);
    let plans = compute_layout(&c, &f, &scales(), &gray_colors(100), BackgroundMode::Plain, 480);
    assert_eq!(plans[3].box_height, plans[3].line_box_height);
    assert!(plans[0].box_height >= 2 * plans[0].line_box_height);
}

#[test]
fn fitted_scale_exact_values() {
    assert_eq!(fit_scale_for_lines(&vec![1000, 500], 60_000, 403), 24_180);
    assert_eq!(fit_scale_for_lines(&vec![100, 200], 60_000, 403), 60_000);
    assert_eq!(fit_scale_for_lines(&vec![], 60_000, 403), 60_000);
    assert_eq!(fit_scale_for_lines(&vec![0], 60_000, 0), 60_000);
}

#[test]
fn fitted_lines_fit_in_column() {
    let widths: Vec<i32> = vec![812, 403, 1999, 7];
    let base: u32 = 60_000;
    let column: u32 = 403;
    let fitted = fit_scale_for_lines(&widths, base, column);
    for w in widths {
        assert!((w as u64) * (fitted as u64) / (base as u64) <= column as u64);
    }
}
