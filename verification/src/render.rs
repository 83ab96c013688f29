//! Raster side of the pipeline: the opaque outside image type, trusted
//! wrappers for the handful of decode/resize/draw/encode calls the
//! compositor makes, and the verified assembly of per-line text boxes.
//!
//! Raster contents are opaque to the contracts; what they track is each
//! image's dimensions and the determinism of decoding and encoding, through
//! the uninterpreted functions below.

use vstd::prelude::*;

use crate::color::Color;
use crate::layout::{FieldPlan, TextPaint};
use crate::text::{font_of, line_width_of, FontAssets, SCALE_MILLI_MAX};
use image::DynamicImage;
use rusttype::Font;

verus! {

#[verifier::external_type_specification]
#[verifier::external_body]
pub struct ExDynamicImage(DynamicImage);

/// Relies on the derived `Clone` of `image::DynamicImage`: a deep copy of
/// the raster, equal to the original.
pub assume_specification[ <DynamicImage as Clone>::clone ](img: &DynamicImage) -> (r:
    DynamicImage)
    ensures
        r == *img,
;

/// Width in pixels of a raster.
pub uninterp spec fn img_width(img: DynamicImage) -> u32;

/// Height in pixels of a raster.
pub uninterp spec fn img_height(img: DynamicImage) -> u32;

/// Whether the image stack decodes these bytes into a raster.
pub uninterp spec fn decodes(bytes: Seq<u8>) -> bool;

/// The RGB samples, row by row, of the raster decoded from these bytes.
pub uninterp spec fn decoded_rgb_of(bytes: Seq<u8>) -> Seq<u8>;

/// Width of the raster decoded from these bytes.
pub uninterp spec fn decoded_width_of(bytes: Seq<u8>) -> u32;

/// Height of the raster decoded from these bytes.
pub uninterp spec fn decoded_height_of(bytes: Seq<u8>) -> u32;

/// The PNG stream encoding a raster.
pub uninterp spec fn png_of(img: DynamicImage) -> Seq<u8>;

/// The transparent raster of the given dimensions.
pub uninterp spec fn blank_of(w: u32, h: u32) -> DynamicImage;

/// The raster rebuilt from RGB samples at the given dimensions.
pub uninterp spec fn image_of(w: u32, h: u32, data: Seq<u8>) -> DynamicImage;

/// The raster scaled down to fit inside the given bounds with the triangle
/// filter.
pub uninterp spec fn resized_of(img: DynamicImage, w: u32, h: u32) -> DynamicImage;

/// The raster filled with a vertical gradient from `start` to `stop`.
pub uninterp spec fn filled_of(img: DynamicImage, start: Color, stop: Color) -> DynamicImage;

/// The canvas with the top raster laid on at the given position.
pub uninterp spec fn overlaid_of(canvas: DynamicImage, top: DynamicImage, x: i64, y: i64) -> DynamicImage;

/// The canvas with one line of text blended in at the given position,
/// scale (thousandths of a pixel) and face.
pub uninterp spec fn drawn_of(
    canvas: DynamicImage,
    color: Color,
    x: i32,
    y: i32,
    scale_milli: u32,
    font: Font<'static>,
    text: Seq<char>,
) -> DynamicImage;

/// Upper bound on the pixel count of any canvas this library allocates,
/// keeping every raster buffer well inside address space.
pub const CANVAS_PIXELS_MAX: u64 = 0x4000_0000;

/// Side cap of a text-box raster; together two capped sides stay within
/// `CANVAS_PIXELS_MAX`.
pub const BOX_SIDE_MAX: u32 = 0x8000;

/// Decodes artwork bytes to an RGB raster.
///
/// Relies on `image::load_from_memory` and `DynamicImage::to_rgb8`: whether
/// bytes decode, and the raster they decode to, are deterministic functions
/// of the bytes; an `RgbImage`'s raw buffer holds exactly three samples per
/// pixel.
#[verifier::external_body]
pub(crate) fn decode_rgb(bytes: &Vec<u8>) -> (r: Option<(Vec<u8>, u32, u32)>)
    ensures
        r is Some <==> decodes(bytes@),
        r is Some ==> {
            &&& r.unwrap().0@ == decoded_rgb_of(bytes@)
            &&& r.unwrap().1 == decoded_width_of(bytes@)
            &&& r.unwrap().2 == decoded_height_of(bytes@)
            &&& r.unwrap().0@.len() == 3 * (r.unwrap().1 as int) * (r.unwrap().2 as int)
        },
{
    match image::load_from_memory(bytes.as_slice()) {
        Err(_) => None,
        Ok(img) => {
            let rgb = img.to_rgb8();
            let w = rgb.width();
            let h = rgb.height();
            Some((rgb.into_raw(), w, h))
        },
    }
}

/// Rebuilds a raster from RGB samples.
///
/// Relies on `image::RgbImage::from_raw`, which accepts a buffer of exactly
/// three samples per pixel and deterministically yields the raster of those
/// samples at the stated dimensions.
#[verifier::external_body]
pub(crate) fn image_from_rgb(w: u32, h: u32, data: Vec<u8>) -> (r: DynamicImage)
    requires
        data@.len() == 3 * (w as int) * (h as int),
    ensures
        r == image_of(w, h, data@),
        img_width(r) == w,
        img_height(r) == h,
{
    DynamicImage::ImageRgb8(image::RgbImage::from_raw(w, h, data).unwrap())
}

/// Scales a raster down to fit inside the given bounds.
///
/// Relies on `DynamicImage::resize` with the triangle (smooth) filter: the
/// aspect ratio is preserved and the result fits within the bounds, each
/// result side being at least one pixel. The source raster must be
/// non-empty, since sampling reads from it. The result is deterministic in
/// the raster and the bounds.
#[verifier::external_body]
pub(crate) fn resize_image(img: &DynamicImage, w: u32, h: u32) -> (r: DynamicImage)
    requires
        img_width(*img) >= 1,
        img_height(*img) >= 1,
    ensures
        r == resized_of(*img, w, h),
        img_width(r) >= 1,
        img_height(r) >= 1,
{
    img.resize(w, h, image::imageops::FilterType::Triangle)
}

/// A transparent canvas of the given dimensions.
///
/// Relies on `DynamicImage::new_rgba8`; the pixel-count bound keeps the
/// four-bytes-per-pixel buffer allocatable.
#[verifier::external_body]
pub(crate) fn new_canvas(w: u32, h: u32) -> (r: DynamicImage)
    requires
        (w as int) * (h as int) <= CANVAS_PIXELS_MAX,
    ensures
        r == blank_of(w, h),
        img_width(r) == w,
        img_height(r) == h,
{
    DynamicImage::new_rgba8(w, h)
}

/// Fills a raster with a linear vertical gradient from `start` at the top
/// to `stop` at the bottom (equal stops give a flat fill).
///
/// Relies on `image::imageops::vertical_gradient`, an in-place pixel
/// operation, deterministic in the raster and the stops, that leaves the
/// dimensions unchanged. A raster of height exactly one is refused: the
/// per-row ratio divides by height minus one, and the resulting NaN makes
/// the channel interpolation panic.
#[verifier::external_body]
pub(crate) fn fill_vertical_gradient(canvas: &mut DynamicImage, start: &Color, stop: &Color)
    requires
        img_height(*old(canvas)) != 1,
    ensures
        *final(canvas) == filled_of(*old(canvas), *start, *stop),
        img_width(*final(canvas)) == img_width(*old(canvas)),
        img_height(*final(canvas)) == img_height(*old(canvas)),
{
    image::imageops::vertical_gradient(
        canvas,
        &image::Rgba([start.r, start.g, start.b, start.a]),
        &image::Rgba([stop.r, stop.g, stop.b, stop.a]),
    );
}

/// Lays the top raster onto the canvas at the given position, clipped to
/// the canvas.
///
/// Relies on `image::imageops::overlay`, an in-place pixel operation,
/// deterministic in its arguments, that clips to the canvas and leaves the
/// canvas dimensions unchanged.
#[verifier::external_body]
pub(crate) fn overlay_image(canvas: &mut DynamicImage, top: &DynamicImage, x: i64, y: i64)
    ensures
        *final(canvas) == overlaid_of(*old(canvas), *top, x, y),
        img_width(*final(canvas)) == img_width(*old(canvas)),
        img_height(*final(canvas)) == img_height(*old(canvas)),
{
    image::imageops::overlay(canvas, top, x, y);
}

/// Blends one line of text into a raster at the given position and scale
/// (in thousandths of a pixel).
///
/// Relies on imageproc's `draw_text_mut` with a rusttype font, an in-place
/// pixel operation, deterministic in its arguments, that leaves the
/// dimensions unchanged; pixels outside the raster are clipped.
#[verifier::external_body]
pub(crate) fn draw_line(
    canvas: &mut DynamicImage,
    color: &Color,
    x: i32,
    y: i32,
    scale_milli: u32,
    font: &Font<'static>,
    text: &str,
)
    requires
        scale_milli <= SCALE_MILLI_MAX,
    ensures
        *final(canvas) == drawn_of(*old(canvas), *color, x, y, scale_milli, *font, text@),
        img_width(*final(canvas)) == img_width(*old(canvas)),
        img_height(*final(canvas)) == img_height(*old(canvas)),
{
    let thousand = rusttype::Scale::uniform(1000u16.into());
    let mut scale = rusttype::Scale::uniform((scale_milli as u16).into());
    scale.x = scale.x / thousand.x;
    scale.y = scale.y / thousand.y;
    imageproc::drawing::draw_text_mut(
        canvas,
        image::Rgba([color.r, color.g, color.b, color.a]),
        x,
        y,
        scale,
        font,
        text,
    );
}

/// Serializes a raster to PNG bytes.
///
/// Relies on `DynamicImage::write_to` with the PNG format: lossless and
/// deterministic for a given raster, refusing only empty rasters; every
/// PNG stream opens with the fixed signature bytes 137, 80, 78, 71, and
/// decoding the stream back recovers a raster of the same dimensions.
#[verifier::external_body]
pub(crate) fn encode_png(img: &DynamicImage) -> (r: Vec<u8>)
    requires
        img_width(*img) >= 1,
        img_height(*img) >= 1,
        (img_width(*img) as int) * (img_height(*img) as int) <= CANVAS_PIXELS_MAX,
    ensures
        r@ == png_of(*img),
        r@.len() >= 8,
        r@[0] == 137u8,
        r@[1] == 80u8,
        r@[2] == 78u8,
        r@[3] == 71u8,
        decodes(r@),
        decoded_width_of(r@) == img_width(*img),
        decoded_height_of(r@) == img_height(*img),
{
    let mut buffer: Vec<u8> = vec![];
    img.write_to(&mut std::io::Cursor::new(&mut buffer), image::ImageOutputFormat::Png).unwrap();
    buffer
}

/// The concrete ink of a paint decision: opaque white, translucent black,
/// or the fully transparent color whose drawing punches through a dark
/// fill.
pub open spec fn spec_paint_color(p: TextPaint) -> Color {
    match p {
        TextPaint::White => Color { r: 255, g: 255, b: 255, a: 255 },
        TextPaint::Black => Color { r: 0, g: 0, b: 0, a: 191 },
        TextPaint::Knockout => Color { r: 0, g: 0, b: 0, a: 0 },
    }
}

/// The ink a paint decision draws with.
pub(crate) fn paint_color(p: TextPaint) -> (c: Color)
    ensures
        c == spec_paint_color(p),
{
    match p {
        TextPaint::White => Color { r: 255, g: 255, b: 255, a: 255 },
        TextPaint::Black => Color { r: 0, g: 0, b: 0, a: 191 },
        TextPaint::Knockout => Color { r: 0, g: 0, b: 0, a: 0 },
    }
}

/// A raster dimension capped at the text-box side limit.
pub open spec fn spec_cap_dim(v: int) -> u32 {
    if v > BOX_SIDE_MAX {
        BOX_SIDE_MAX
    } else {
        v as u32
    }
}

/// A raster dimension capped at the text-box side limit.
fn cap_dim(v: u64) -> (r: u32)
    ensures
        r <= BOX_SIDE_MAX,
        r == spec_cap_dim(v as int),
{
    if v > BOX_SIDE_MAX as u64 {
        BOX_SIDE_MAX
    } else {
        v as u32
    }
}

/// The translucent dark tone a knockout box is filled with before its
/// glyphs punch through it.
pub open spec fn spec_dark_fill() -> Color {
    Color { r: 0, g: 0, b: 0, a: 191 }
}

/// One line's box: a blank raster sized to the measured line — dark-filled
/// first on the knockout path — with the line drawn into it at the plan's
/// inner offset.
pub open spec fn spec_line_box(font_bytes: Seq<u8>, plan: FieldPlan, line: Seq<char>) -> DynamicImage {
    let w = spec_cap_dim(line_width_of(font_bytes, line, plan.scale_milli) + 6);
    let h = spec_cap_dim(plan.line_box_height as int);
    let blank = blank_of(w, h);
    let backed = if plan.paint is Knockout {
        filled_of(blank, spec_dark_fill(), spec_dark_fill())
    } else {
        blank
    };
    drawn_of(
        backed,
        spec_paint_color(plan.paint),
        2,
        plan.inner_y,
        plan.scale_milli,
        font_of(font_bytes),
        line,
    )
}

/// The line boxes from index `i` on, stacked onto `acc` top to bottom at
/// the running cursor.
pub open spec fn spec_stacked_lines(
    font_bytes: Seq<u8>,
    plan: FieldPlan,
    lines: Seq<Seq<char>>,
    i: int,
    acc: DynamicImage,
    cursor: int,
) -> DynamicImage
    decreases lines.len() - i,
{
    if i < 0 || i >= lines.len() {
        acc
    } else {
        spec_stacked_lines(
            font_bytes,
            plan,
            lines,
            i + 1,
            overlaid_of(acc, spec_line_box(font_bytes, plan, lines[i]), 0, cursor as i64),
            cursor + spec_cap_dim(plan.line_box_height as int),
        )
    }
}

/// The widest measured width among the first `n` lines.
pub open spec fn spec_max_line_width(
    font_bytes: Seq<u8>,
    lines: Seq<Seq<char>>,
    scale_milli: u32,
    n: int,
) -> int
    decreases n,
{
    if n <= 0 {
        0
    } else {
        let prev = spec_max_line_width(font_bytes, lines, scale_milli, n - 1);
        let w = line_width_of(font_bytes, lines[n - 1], scale_milli);
        if w > prev {
            w
        } else {
            prev
        }
    }
}

/// The whole stacked text-box raster of one field: a blank raster wide
/// enough for the widest line and tall enough for every line box, with the
/// line boxes stacked in.
pub open spec fn spec_text_box_raster(
    font_bytes: Seq<u8>,
    plan: FieldPlan,
    lines: Seq<Seq<char>>,
) -> DynamicImage {
    let w = spec_cap_dim(
        spec_max_line_width(font_bytes, lines, plan.scale_milli, lines.len() as int) + 6,
    );
    let h = spec_cap_dim(plan.box_height as int);
    spec_stacked_lines(font_bytes, plan, lines, 0, blank_of(w, h), 0)
}

/// Renders one field as a stacked raster of per-line boxes: each line box
/// holds one wrapped line, filled with a translucent dark tone first when
/// the field takes the knockout path, so that drawing the fully
/// transparent ink removes pixels and the background shows through the
/// glyph shapes. The result is exactly the named composite of those
/// operations, sized to the widest measured line (the measured run width,
/// plus padding) and to one line box per line.
pub(crate) fn render_text_box(fonts: &FontAssets, lines: &Vec<String>, plan: &FieldPlan) -> (r:
    DynamicImage)
    requires
        plan.scale_milli <= SCALE_MILLI_MAX,
        plan.line_box_height != 1,
        lines@.len() <= crate::layout::FIELD_CHARS_MAX + 1,
    ensures
        r == spec_text_box_raster(
            fonts.spec_font_bytes(plan.cjk),
            *plan,
            lines@.map_values(|s: String| s@),
        ),
        img_width(r) == spec_cap_dim(
            spec_max_line_width(
                fonts.spec_font_bytes(plan.cjk),
                lines@.map_values(|s: String| s@),
                plan.scale_milli,
                lines@.len() as int,
            ) + 6,
        ),
        img_height(r) == spec_cap_dim(plan.box_height as int),
{
    let ghost fb = fonts.spec_font_bytes(plan.cjk);
    let ghost lviews = lines@.map_values(|s: String| s@);
    let bytes = fonts.bytes_of(plan.cjk);
    let color = paint_color(plan.paint);
    let dark = Color { r: 0, g: 0, b: 0, a: 191 };
    let n = lines.len();
    let mut widths: Vec<i32> = Vec::new();
    let mut max_w: i32 = 0;
    let mut i: usize = 0;
    while i < n
        invariant
            i <= n,
            n == lines@.len(),
            lviews == lines@.map_values(|s: String| s@),
            widths@.len() == i,
            font_parses_inv(bytes@, *fonts, plan.cjk),
            fb == bytes@,
            plan.scale_milli <= SCALE_MILLI_MAX,
            max_w >= 0,
            max_w == spec_max_line_width(fb, lviews, plan.scale_milli, i as int),
            forall|j: int| 0 <= j < n && 0 <= j < i ==> widths@[j] == line_width_of(
                fb,
                lviews[j],
                plan.scale_milli,
            ) && widths@[j] >= 0,
        decreases n - i,
    {
        let w = crate::text::measure_line_width(bytes, lines[i].as_str(), plan.scale_milli);
        if w > max_w {
            max_w = w;
        }
        widths.push(w);
        i = i + 1;
    }
    let box_w = cap_dim(max_w as u64 + 6);
    let box_h = cap_dim(plan.box_height);
    proof {
        assert((box_w as int) * (box_h as int) <= CANVAS_PIXELS_MAX) by (nonlinear_arith)
            requires
                box_w <= BOX_SIDE_MAX,
                box_h <= BOX_SIDE_MAX,
        ;
    }
    let mut final_box = new_canvas(box_w, box_h);
    let font = fonts.font_for(plan.cjk);
    let mut cursor: i64 = 0;
    let mut i: usize = 0;
    while i < n
        invariant
            i <= n,
            n == lines@.len(),
            lviews == lines@.map_values(|s: String| s@),
            widths@.len() == n,
            fb == bytes@,
            *font == font_of(fb),
            color == spec_paint_color(plan.paint),
            dark == spec_dark_fill(),
            plan.scale_milli <= SCALE_MILLI_MAX,
            plan.line_box_height != 1,
            0 <= cursor <= (i as int) * 0x8000,
            n <= crate::layout::FIELD_CHARS_MAX + 1,
            forall|j: int| 0 <= j < n ==> widths@[j] == line_width_of(
                fb,
                lviews[j],
                plan.scale_milli,
            ) && widths@[j] >= 0,
            img_width(final_box) == box_w,
            img_height(final_box) == box_h,
            spec_text_box_raster(fb, *plan, lviews) == spec_stacked_lines(
                fb,
                *plan,
                lviews,
                i as int,
                final_box,
                cursor as int,
            ),
        decreases n - i,
    {
        let line_w = cap_dim(widths[i] as u64 + 6);
        let line_h = cap_dim(plan.line_box_height);
        proof {
            assert((line_w as int) * (line_h as int) <= CANVAS_PIXELS_MAX) by (nonlinear_arith)
                requires
                    line_w <= BOX_SIDE_MAX,
                    line_h <= BOX_SIDE_MAX,
            ;
            assert((i + 1) * 0x8000 == i * 0x8000 + 0x8000) by (nonlinear_arith);
        }
        let mut line_box = new_canvas(line_w, line_h);
        if matches!(plan.paint, TextPaint::Knockout) {
            fill_vertical_gradient(&mut line_box, &dark, &dark);
        }
        draw_line(&mut line_box, &color, 2, plan.inner_y, plan.scale_milli, font, lines[i].as_str());
        proof {
            assert(line_box == spec_line_box(fb, *plan, lviews[i as int]));
        }
        overlay_image(&mut final_box, &line_box, 0, cursor);
        cursor = cursor + line_h as i64;
        i = i + 1;
    }
    final_box
}

/// The selected face's bytes parse (carried through the measuring loop).
spec fn font_parses_inv(bytes: Seq<u8>, fonts: FontAssets, cjk: bool) -> bool {
    bytes == fonts.spec_font_bytes(cjk) && crate::text::font_parses(bytes)
}

} // verus!
