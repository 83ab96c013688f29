use trackcard::cards::{
    generate_canvas_assets, generate_card, generate_card_from_data, generate_text_assets,
    CardError,
};
use trackcard::model::CardData;
use trackcard::text::FontAssets;

fn solid_png(r: u8, g: u8, b: u8) -> Vec<u8> {
    let img = image::RgbImage::from_pixel(16, 16, image::Rgb([r, g, b]));
    let mut buf: Vec<u8> = Vec::new();
    image::DynamicImage::ImageRgb8(img)
        .write_to(&mut std::io::Cursor::new(&mut buf), image::ImageOutputFormat::Png)
        .unwrap();
    buf
}

/// A 16x16 artwork whose top half is one gray tone and bottom half another,
/// so clustering yields two distinct candidates.
fn dual_png(top: u8, bottom: u8) -> Vec<u8> {
    let img = image::RgbImage::from_fn(16, 16, |_, y| {
        if y < 8 { image::Rgb([top, top, top]) } else { image::Rgb([bottom, bottom, bottom]) }
    });
    let mut buf: Vec<u8> = Vec::new();
    image::DynamicImage::ImageRgb8(img)
        .write_to(&mut std::io::Cursor::new(&mut buf), image::ImageOutputFormat::Png)
        .unwrap();
    buf
}

fn card(name: &str, album: &str, album_type: &str, genres: &str, size: u16, png: Vec<u8>) -> CardData {
    CardData {
        track_id: String::from("t"),
        name: String::from(name),
        album: String::from(album),
        album_type: String::from(album_type),
        artists: String::from("C"),
        genres: String::from(genres),
        jacket_size: size,
        jacket_bytes: png,
    }
}

fn noto() -> Vec<u8> {
    ttf_noto_sans::REGULAR.to_vec()
}

#[test]
fn canvas_assets_from_gray_artwork() {
    let c = card("A", "B", "album", "#pop", 640, dual_png(100, 80));
    let assets = generate_canvas_assets(&c).unwrap();
    assert_eq!(assets.jacket_size, 480);
    let colors = assets.colors;
    // Two equal-share candidates: the pair's second-from-last entry is the
    // darker tone, so both stops coincide on it.
    let (start, end) = colors.gradient.unwrap();
    assert_eq!(start, end);
    assert!(start.r.abs_diff(80) <= 2 && start.g.abs_diff(80) <= 2 && start.b.abs_diff(80) <= 2);
    assert!(colors.plain.r.abs_diff(80) <= 2);
    assert_eq!(colors.plain.a, 255);
    assert_eq!(colors.custom_gradient, colors.gradient);
    assert_eq!(colors.all_colors.len(), 2);
}

#[test]
fn solid_artwork_has_one_candidate_and_errors() {
    // A literally solid artwork clusters to a single candidate, too few to
    // form the darkest/second-from-last gradient pair.
    let c = card("A", "B", "album", "#pop", 640, solid_png(100, 100, 100));
    assert_eq!(generate_canvas_assets(&c).unwrap_err(), CardError::NoQualifyingColor);
}

#[test]
fn extraction_is_deterministic() {
    let c = card("A", "B", "album", "#pop", 640, dual_png(90, 150));
    let first = generate_canvas_assets(&c).unwrap();
    let second = generate_canvas_assets(&c).unwrap();
    assert_eq!(first.colors, second.colors);
    assert_eq!(first.jacket_size, second.jacket_size);
}

#[test]
fn black_artwork_has_no_qualifying_color() {
    let c = card("A", "B", "album", "#pop", 640, solid_png(0, 0, 0));
    assert_eq!(generate_canvas_assets(&c).unwrap_err(), CardError::NoQualifyingColor);
}

#[test]
fn bright_artwork_misses_plain_band() {
    let c = card("A", "B", "album", "#pop", 640, dual_png(220, 230));
    assert_eq!(generate_canvas_assets(&c).unwrap_err(), CardError::NoQualifyingColor);
}

#[test]
fn undecodable_artwork_is_a_decode_error() {
    let c = card("A", "B", "album", "#pop", 640, vec![1, 2, 3, 4]);
    assert_eq!(generate_canvas_assets(&c).unwrap_err(), CardError::Decode);
}

#[test]
fn bad_font_bytes_are_refused() {
    assert!(FontAssets::load(vec![0, 1, 2], noto()).is_err());
    assert!(FontAssets::load(noto(), vec![]).is_err());
    assert!(FontAssets::load(noto(), noto()).is_ok());
    let c = card("A", "B", "album", "#pop", 640, solid_png(100, 100, 100));
    assert_eq!(
        generate_card_from_data(c, String::from("plain"), vec![9, 9], noto()).unwrap_err(),
        CardError::FontLoad,
    );
}

#[test]
fn auto_fit_shrinks_only_wide_lines() {
    let fonts = FontAssets::load(noto(), noto()).unwrap();
    let png = dual_png(100, 80);
    let wide = "WWWWWWWWWWWWWWWWWWWWWWWWWWWWWWWWWWWW";
    let c = card(wide, "B", "album", "#pop", 640, png);
    let assets = generate_canvas_assets(&c).unwrap();
    let text_assets = generate_text_assets(&c, &assets, fonts);
    assert_eq!(text_assets.scales.len(), 4);
    assert!(text_assets.scales[0] < 60_000);
    assert_eq!(text_assets.scales[1], 60_000);
    assert!(text_assets.scales[3] <= 10_000);
}

#[test]
fn gray_card_end_to_end() {
    let c = card("A", "B", "album", "#pop", 640, dual_png(100, 80));
    let png = generate_card_from_data(c, String::from("plain"), noto(), noto()).unwrap();
    assert_eq!(&png[0..4], &[137u8, 80, 78, 71]);
    let canvas = image::load_from_memory(&png).unwrap();
    assert_eq!(canvas.width(), 973);
    assert_eq!(canvas.height(), 540);

    // On this dark gray every field is plain opaque white, never knockout.
    let c = card("A", "B", "album", "#pop", 640, dual_png(100, 80));
    let assets = generate_canvas_assets(&c).unwrap();
    let fonts = FontAssets::load(noto(), noto()).unwrap();
    let plans = trackcard::layout::compute_layout(
        &c,
        &fonts,
        &vec![60_000, 60_000, 60_000, 10_000],
        &assets.colors,
        trackcard::layout::BackgroundMode::Plain,
        assets.jacket_size,
    );
    for plan in &plans {
        assert_eq!(plan.paint, trackcard::layout::TextPaint::White);
    }
}

#[test]
fn single_card_end_to_end() {
    let c = card("Name", "Album", "single", "#pop #rock", 640, dual_png(100, 80));
    let png = generate_card_from_data(c, String::from("gradient"), noto(), noto()).unwrap();
    let canvas = image::load_from_memory(&png).unwrap();
    assert_eq!(canvas.height(), 540);
}

#[test]
fn bright_card_uses_knockout_path() {
    let c = card("Song Name", "Album", "album", "#pop", 640, dual_png(150, 140));
    let png = generate_card_from_data(c, String::from("plain"), noto(), noto()).unwrap();
    assert_eq!(&png[0..4], &[137u8, 80, 78, 71]);
}

#[test]
fn all_modes_render() {
    for mode in ["plain", "gradient", "inverted", "custom", "unknown"] {
        let c = card("A", "B", "album", "#pop", 320, dual_png(100, 80));
        let png = generate_card_from_data(c, String::from(mode), noto(), noto()).unwrap();
        let canvas = image::load_from_memory(&png).unwrap();
        assert_eq!(canvas.width() > 0, true);
    }
}

#[test]
fn generate_card_from_prebuilt_assets() {
    let fonts = FontAssets::load(noto(), noto()).unwrap();
    let c = card("A", "B", "album", "#pop", 640, dual_png(100, 80));
    let assets = generate_canvas_assets(&c).unwrap();
    let text_assets = generate_text_assets(&c, &assets, fonts);
    let png = generate_card(c, assets, text_assets, String::from("inverted"));
    assert_eq!(&png[0..4], &[137u8, 80, 78, 71]);
}
