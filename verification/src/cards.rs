//! Card assets: the extracted background palette, the canvas geometry
//! derived from the artwork's render size, and the per-field text scales.

use vstd::prelude::*;

use crate::cluster::{find_best_colors, spec_clusters, spec_extract, spec_extract_ok};
use crate::color::{blend, spec_blend, Color};
use crate::layout::{
    compute_layout, mode_of, spec_field_base_scale, spec_field_plan, spec_field_text,
    spec_field_wrap_width, spec_mode, spec_mode_pairs_present, BackgroundMode, FIELD_CHARS_MAX,
};
use crate::model::CardData;
use crate::render::{
    blank_of, decode_rgb, decoded_height_of, decoded_rgb_of, decoded_width_of, decodes,
    draw_line, drawn_of, encode_png, fill_vertical_gradient, filled_of, image_from_rgb, image_of,
    img_height, img_width, new_canvas, overlaid_of, overlay_image, paint_color, png_of,
    render_text_box, resize_image, resized_of, spec_paint_color, spec_text_box_raster,
    CANVAS_PIXELS_MAX,
};
use crate::text::{
    field_scale, font_of, font_parses, spec_field_scale, spec_selected_bytes, wrap_text,
    wrapped_of, FontAssets, GENRES_WRAP_WIDTH, SCALE_MILLI_MAX, WRAP_WIDTH,
};
use image::DynamicImage;

verus! {

/// Horizontal and vertical inset of the artwork on the canvas, in pixels.
pub const JACKET_OFFSET: u32 = 30;

/// Vertical position of the first text row.
pub const TEXT_OFFSET_Y: u32 = 30;

/// Vertical gap added below each rendered text row.
pub const TEXT_SPACING: u32 = 60;

/// Base font scale of the name, album and artists rows, in thousandths of a
/// pixel.
pub const TEXT_SCALE_MILLI: u32 = 60_000;

/// Base font scale of the genres row, in thousandths of a pixel.
pub const GENRES_SCALE_MILLI: u32 = 10_000;

/// Alpha at which the far gradient stop is blended over the near one when a
/// single reference color is needed for a gradient background.
pub const GRADIENT_BLEND_ALPHA: u8 = 127;

/// A manual color override: the palette color a user picked and the name
/// of the gradient row it replaces.
#[derive(Debug, Clone, PartialEq)]
pub struct ColorSelectorEmit {
    pub new_color: Color,
    pub row: String,
}

/// Background colors extracted from one artwork: a dominant flat color, an
/// ordered gradient pair, an optional override pair, and the deduplicated
/// candidate palette offered for manual overrides.
#[derive(Debug, Clone, PartialEq)]
pub struct GradientColors {
    pub plain: Color,
    pub gradient: Option<(Color, Color)>,
    pub custom_gradient: Option<(Color, Color)>,
    pub all_colors: Vec<Color>,
}

/// The mathematical value of a `GradientColors`: the same fields with the
/// palette as a sequence.
pub ghost struct GradientColorsView {
    pub plain: Color,
    pub gradient: Option<(Color, Color)>,
    pub custom_gradient: Option<(Color, Color)>,
    pub all_colors: Seq<Color>,
}

impl View for GradientColors {
    type V = GradientColorsView;

    open spec fn view(&self) -> GradientColorsView {
        GradientColorsView {
            plain: self.plain,
            gradient: self.gradient,
            custom_gradient: self.custom_gradient,
            all_colors: self.all_colors@,
        }
    }
}

impl GradientColors {
    /// The gradient pair selected by `is_custom_gradient`.
    pub open spec fn spec_pair(self, is_custom_gradient: bool) -> (Color, Color) {
        if is_custom_gradient {
            self.custom_gradient.unwrap()
        } else {
            self.gradient.unwrap()
        }
    }

    /// Whether the pair selected by `is_custom_gradient` is present.
    pub open spec fn pair_present(self, is_custom_gradient: bool) -> bool {
        if is_custom_gradient {
            self.custom_gradient is Some
        } else {
            self.gradient is Some
        }
    }

    /// The 50%-alpha blend of the selected gradient pair: the end stop laid
    /// over the start stop at alpha 127.
    pub fn gradient_blend(&self, is_custom_gradient: bool) -> (r: Color)
        requires
            self.pair_present(is_custom_gradient),
        ensures
            r == spec_blend(
                self.spec_pair(is_custom_gradient).0,
                self.spec_pair(is_custom_gradient).1,
                GRADIENT_BLEND_ALPHA,
            ),
    {
        let (start, end) = match is_custom_gradient {
            false => self.gradient.as_ref().unwrap(),
            _ => self.custom_gradient.as_ref().unwrap(),
        };
        blend(start, end, GRADIENT_BLEND_ALPHA)
    }

    /// The default gradient pair blended at a caller-chosen alpha.
    pub fn gradient_custom_blend(&self, blend_factor: u8) -> (r: Color)
        requires
            self.gradient is Some,
        ensures
            r == spec_blend(self.gradient.unwrap().0, self.gradient.unwrap().1, blend_factor),
    {
        let (start, end) = self.gradient.as_ref().unwrap();
        blend(start, end, blend_factor)
    }

    /// Start stop of the selected gradient pair.
    pub fn gradient_start(&self, is_custom_gradient: bool) -> (r: Color)
        requires
            self.pair_present(is_custom_gradient),
        ensures
            r == self.spec_pair(is_custom_gradient).0,
    {
        match is_custom_gradient {
            false => self.gradient.as_ref().unwrap().0,
            _ => self.custom_gradient.as_ref().unwrap().0,
        }
    }

    /// Applies a manual override: a pick for the top row replaces the
    /// custom start stop, any other row the custom end stop. The pair is
    /// replaced wholesale, so the untouched endpoint is preserved and
    /// nothing else of the palette changes.
    pub fn apply_color_override(&mut self, selection: &ColorSelectorEmit)
        requires
            old(self).custom_gradient is Some,
        ensures
            final(self).custom_gradient == (if selection.row@ == "top"@ {
                Some((selection.new_color, old(self).custom_gradient.unwrap().1))
            } else {
                Some((old(self).custom_gradient.unwrap().0, selection.new_color))
            }),
            final(self).plain == old(self).plain,
            final(self).gradient == old(self).gradient,
            final(self).all_colors == old(self).all_colors,
    {
        let keep = self.custom_gradient.unwrap();
        if selection.row == "top".to_owned() {
            self.custom_gradient = Some((selection.new_color, keep.1));
        } else {
            self.custom_gradient = Some((keep.0, selection.new_color));
        }
    }

    /// End stop of the selected gradient pair.
    pub fn gradient_end(&self, is_custom_gradient: bool) -> (r: Color)
        requires
            self.pair_present(is_custom_gradient),
        ensures
            r == self.spec_pair(is_custom_gradient).1,
    {
        match is_custom_gradient {
            false => self.gradient.as_ref().unwrap().1,
            _ => self.custom_gradient.as_ref().unwrap().1,
        }
    }
}

/// Upper bound on the jacket render size accepted by the geometry: keeps
/// every derived dimension inside `u32` and every canvas allocatable.
pub const JACKET_SIZE_MAX: u32 = 100_000_000;

/// Render size of the artwork on the canvas: 75% of its nominal size,
/// rounded down.
pub open spec fn spec_render_size(nominal: int) -> int {
    3 * nominal / 4
}

/// Width of the text column: 84% of the render size, rounded to nearest.
pub open spec fn spec_text_area_width(jacket_size: int) -> int {
    (84 * jacket_size + 50) / 100
}

/// Canvas width: artwork, text column and three insets side by side.
pub open spec fn spec_canvas_width(jacket_size: int) -> int {
    jacket_size + spec_text_area_width(jacket_size) + 3 * JACKET_OFFSET
}

/// Canvas height: artwork with an inset above and below.
pub open spec fn spec_canvas_height(jacket_size: int) -> int {
    jacket_size + 2 * JACKET_OFFSET
}

/// Horizontal position of the text column.
pub open spec fn spec_text_offset_x(jacket_size: int) -> int {
    jacket_size + 2 * JACKET_OFFSET - 5
}

/// The resized artwork raster together with its render size and the colors
/// extracted from the artwork; all canvas geometry derives from
/// `jacket_size` alone.
#[derive(Debug, Clone)]
pub struct CanvasAssets {
    pub jacket_size: u32,
    pub jacket: DynamicImage,
    pub colors: GradientColors,
}

impl CanvasAssets {
    pub fn set_jacket_size(&mut self, jacket_size: u32)
        ensures
            final(self).jacket_size == jacket_size,
            final(self).jacket == old(self).jacket,
            final(self).colors == old(self).colors,
    {
        self.jacket_size = jacket_size;
    }

    /// Horizontal position of the text column on the canvas.
    pub fn text_offset_x(&self) -> (r: u32)
        requires
            self.jacket_size <= JACKET_SIZE_MAX,
        ensures
            r == spec_text_offset_x(self.jacket_size as int),
    {
        self.jacket_size + JACKET_OFFSET * 2 - 5
    }

    /// Width of the text column: 84% of the render size, rounded to nearest.
    pub fn text_area_width(&self) -> (r: u32)
        requires
            self.jacket_size <= JACKET_SIZE_MAX,
        ensures
            r == spec_text_area_width(self.jacket_size as int),
    {
        ((84u64 * (self.jacket_size as u64) + 50) / 100) as u32
    }

    /// Canvas height: artwork with an inset above and below.
    pub fn canvas_height(&self) -> (r: u32)
        requires
            self.jacket_size <= JACKET_SIZE_MAX,
        ensures
            r == spec_canvas_height(self.jacket_size as int),
    {
        self.jacket_size + JACKET_OFFSET * 2
    }

    /// Canvas width: artwork, text column and three insets side by side.
    pub fn canvas_width(&self) -> (r: u32)
        requires
            self.jacket_size <= JACKET_SIZE_MAX,
        ensures
            r == spec_canvas_width(self.jacket_size as int),
    {
        self.jacket_size + self.text_area_width() + JACKET_OFFSET * 3
    }
}

/// The canvas dimensions are an exact function of the artwork's nominal
/// size: a render size of three quarters of the nominal size (rounded down)
/// fixes the text column at 84% of it (rounded to nearest), the canvas width
/// at render size plus column plus three insets, and the canvas height at
/// render size plus two insets.
pub proof fn law_canvas_dimensions(nominal: int)
    requires
        nominal >= 0,
    ensures
        spec_canvas_width(spec_render_size(nominal)) == spec_render_size(nominal)
            + spec_text_area_width(spec_render_size(nominal)) + 3 * JACKET_OFFSET,
        spec_canvas_height(spec_render_size(nominal)) == spec_render_size(nominal) + 2
            * JACKET_OFFSET,
        spec_render_size(nominal) == 3 * nominal / 4,
{
}

/// Why a card could not be generated.
#[derive(Clone, Copy, Debug, PartialEq, Eq, Structural)]
pub enum CardError {
    /// The artwork bytes did not decode to a non-empty raster.
    Decode,
    /// A color filter band matched no cluster.
    NoQualifyingColor,
    /// An embedded font asset did not parse.
    FontLoad,
}

/// Per-field fitted scales, in thousandths of a pixel and in the fixed
/// order name, album, artists, genres, together with the loaded font
/// faces.
pub struct TextAssets {
    pub scales: Vec<u32>,
    pub fonts: FontAssets,
}

/// Upper bound on the nominal artwork size the pipeline accepts; keeps the
/// canvas allocatable.
pub const NOMINAL_SIZE_MAX: u16 = 21_845;

/// Upper bound on the render size a card canvas is composited at.
pub const CARD_JACKET_MAX: u32 = 16_384;

/// The background fill of a mode over a base raster: a flat fill of the
/// dominant color in plain mode, the default pair top-to-bottom in
/// gradient mode, that pair swapped in inverted mode, and the override
/// pair in custom mode.
pub open spec fn spec_background(
    colors: GradientColorsView,
    mode: BackgroundMode,
    base: DynamicImage,
) -> DynamicImage {
    match mode {
        BackgroundMode::Plain => filled_of(base, colors.plain, colors.plain),
        BackgroundMode::Inverted => filled_of(
            base,
            colors.gradient.unwrap().1,
            colors.gradient.unwrap().0,
        ),
        BackgroundMode::Custom => filled_of(
            base,
            colors.custom_gradient.unwrap().0,
            colors.custom_gradient.unwrap().1,
        ),
        BackgroundMode::Gradient => filled_of(
            base,
            colors.gradient.unwrap().0,
            colors.gradient.unwrap().1,
        ),
    }
}

/// The canvas after the text rows from `i` on have been applied, in row
/// order: a row that draws nothing leaves the canvas exactly as it was, a
/// genres row outside the knockout path is drawn as one unwrapped line at
/// its pinned position, and every other drawn row lays its stacked text
/// box at the cursor position the plan fixed.
pub open spec fn spec_card_fields(
    card: CardData,
    default_bytes: Seq<u8>,
    cjk_bytes: Seq<u8>,
    scales: Seq<u32>,
    colors: GradientColorsView,
    mode: BackgroundMode,
    jacket_size: u32,
    canvas: DynamicImage,
    i: int,
) -> DynamicImage
    decreases 4 - i,
{
    if i < 0 || i >= 4 {
        canvas
    } else {
        let plan = spec_field_plan(
            card,
            default_bytes,
            cjk_bytes,
            scales,
            colors,
            mode,
            jacket_size as int,
            i,
        );
        let text = spec_field_text(card, i);
        let bytes = spec_selected_bytes(default_bytes, cjk_bytes, text);
        let next = if !plan.draw {
            canvas
        } else if i == 3 && !plan.boxed {
            drawn_of(
                canvas,
                spec_paint_color(plan.paint),
                spec_text_offset_x(jacket_size as int) as i32,
                plan.y as i32,
                plan.scale_milli,
                font_of(bytes),
                text,
            )
        } else {
            overlaid_of(
                canvas,
                spec_text_box_raster(bytes, plan, wrapped_of(text, spec_field_wrap_width(i))),
                (spec_text_offset_x(jacket_size as int) - 2) as i64,
                plan.y,
            )
        };
        spec_card_fields(
            card,
            default_bytes,
            cjk_bytes,
            scales,
            colors,
            mode,
            jacket_size,
            next,
            i + 1,
        )
    }
}

/// The fully composited card canvas: the mode's background filled over a
/// blank canvas of the card's geometry, the resized artwork laid at its
/// inset, and the four text rows applied in order.
pub open spec fn spec_card_canvas(
    card: CardData,
    default_bytes: Seq<u8>,
    cjk_bytes: Seq<u8>,
    scales: Seq<u32>,
    colors: GradientColorsView,
    mode: BackgroundMode,
    jacket_size: u32,
    jacket: DynamicImage,
) -> DynamicImage {
    let base = blank_of(
        spec_canvas_width(jacket_size as int) as u32,
        spec_canvas_height(jacket_size as int) as u32,
    );
    let with_jacket = overlaid_of(
        spec_background(colors, mode, base),
        jacket,
        JACKET_OFFSET as i64,
        JACKET_OFFSET as i64,
    );
    spec_card_fields(
        card,
        default_bytes,
        cjk_bytes,
        scales,
        colors,
        mode,
        jacket_size,
        with_jacket,
        0,
    )
}

/// Decodes the artwork, renders it at 75% of its nominal size (rounded
/// down), and extracts the background palette from the full-size pixels.
/// Fails with `Decode` exactly when the bytes do not decode to a non-empty
/// raster, and with `NoQualifyingColor` exactly when a color filter band
/// leaves no usable candidate.
pub fn generate_canvas_assets(card_data: &CardData) -> (r: Result<CanvasAssets, CardError>)
    requires
        card_data.jacket_size >= 1,
    ensures
        ({
            let px = decoded_rgb_of(card_data.jacket_bytes@);
            &&& (r is Ok <==> decodes(card_data.jacket_bytes@) && px.len() > 0 && spec_extract_ok(
                spec_clusters(px),
            ))
            &&& (r is Ok ==> r.unwrap().jacket_size == spec_render_size(
                card_data.jacket_size as int,
            ) && r.unwrap().colors@ == spec_extract(spec_clusters(px)))
            &&& (r is Ok ==> r.unwrap().jacket == resized_of(
                image_of(
                    decoded_width_of(card_data.jacket_bytes@),
                    decoded_height_of(card_data.jacket_bytes@),
                    px,
                ),
                spec_render_size(card_data.jacket_size as int) as u32,
                spec_render_size(card_data.jacket_size as int) as u32,
            ) && img_width(r.unwrap().jacket) >= 1 && img_height(r.unwrap().jacket) >= 1)
            &&& (r is Err ==> ((r->Err_0 == CardError::Decode) <==> !(decodes(
                card_data.jacket_bytes@,
            ) && px.len() > 0)))
            &&& (r is Err ==> r->Err_0 == CardError::Decode || r->Err_0
                == CardError::NoQualifyingColor)
        }),
{
    let jacket_size = ((3 * (card_data.jacket_size as u64)) / 4) as u32;
    match decode_rgb(&card_data.jacket_bytes) {
        None => Err(CardError::Decode),
        Some((rgb, w, h)) => {
            if rgb.len() == 0 {
                return Err(CardError::Decode);
            }
            proof {
                vstd::arithmetic::mul::lemma_mul_is_associative(3, w as int, h as int);
                vstd::arithmetic::div_mod::lemma_mod_multiples_basic((w as int) * (h as int), 3);
                assert(((w as int) * (h as int)) * 3 == 3 * ((w as int) * (h as int)))
                    by (nonlinear_arith);
            }
            let colors = match find_best_colors(&rgb) {
                Ok(c) => c,
                Err(_) => {
                    return Err(CardError::NoQualifyingColor);
                },
            };
            proof {
                assert(w >= 1 && h >= 1) by (nonlinear_arith)
                    requires
                        rgb@.len() == 3 * (w as int) * (h as int),
                        rgb@.len() > 0,
                ;
            }
            let full = image_from_rgb(w, h, rgb);
            let resized = resize_image(&full, jacket_size, jacket_size);
            Ok(CanvasAssets { jacket_size, jacket: resized, colors })
        },
    }
}

/// Computes the four fields' auto-fit scales against the canvas' text
/// column: each field is wrapped at its wrap width, measured under the
/// script-selected face at its base scale, and shrunk until every line
/// fits.
pub fn generate_text_assets(
    card_data: &CardData,
    canvas_assets: &CanvasAssets,
    fonts: FontAssets,
) -> (r: TextAssets)
    requires
        canvas_assets.jacket_size <= JACKET_SIZE_MAX,
    ensures
        r.scales@.len() == 4,
        forall|i: int| 0 <= i < 4 ==> r.scales@[i] == spec_field_scale(
            fonts.spec_default_bytes(),
            fonts.spec_cjk_bytes(),
            spec_field_text(*card_data, i),
            crate::layout::spec_field_base_scale(i),
            crate::layout::spec_field_wrap_width(i),
            spec_text_area_width(canvas_assets.jacket_size as int) as u32,
        ),
        forall|i: int| 0 <= i < 4 ==> r.scales@[i] <= crate::layout::spec_field_base_scale(i),
        r.fonts == fonts,
{
    let column = canvas_assets.text_area_width();
    let mut scales: Vec<u32> = Vec::new();
    let mut i: usize = 0;
    while i < 4
        invariant
            i <= 4,
            scales@.len() == i,
            column == spec_text_area_width(canvas_assets.jacket_size as int),
            forall|k: int| 0 <= k < i ==> scales@[k] == spec_field_scale(
                fonts.spec_default_bytes(),
                fonts.spec_cjk_bytes(),
                spec_field_text(*card_data, k),
                crate::layout::spec_field_base_scale(k),
                crate::layout::spec_field_wrap_width(k),
                column,
            ),
            forall|k: int| 0 <= k < i ==> scales@[k] <= crate::layout::spec_field_base_scale(k),
        decreases 4 - i,
    {
        let text: &String = if i == 0 {
            &card_data.name
        } else if i == 1 {
            &card_data.album
        } else if i == 2 {
            &card_data.artists
        } else {
            &card_data.genres
        };
        let base: u32 = if i == 3 {
            GENRES_SCALE_MILLI
        } else {
            TEXT_SCALE_MILLI
        };
        let wrap_width: usize = if i == 3 {
            GENRES_WRAP_WIDTH
        } else {
            WRAP_WIDTH
        };
        scales.push(field_scale(&fonts, text.as_str(), base, wrap_width, column));
        i = i + 1;
    }
    TextAssets { scales, fonts }
}

/// Composites the card: fills the background in the selected mode, lays
/// the resized artwork at its inset, draws the four text rows in order,
/// and serializes the canvas to a PNG byte stream. The bytes are exactly
/// the PNG encoding of the named composite of those operations — so the
/// result is a function of the arguments — and decode back to a raster of
/// the canvas geometry, opening with the PNG signature.
#[verifier::rlimit(100)]
pub fn generate_card(
    card_data: CardData,
    canvas_assets: CanvasAssets,
    text_assets: TextAssets,
    bg_type: String,
) -> (r: Vec<u8>)
    requires
        canvas_assets.jacket_size <= CARD_JACKET_MAX,
        text_assets.scales@.len() == 4,
        forall|i: int| 0 <= i < 4 ==> text_assets.scales@[i] <= SCALE_MILLI_MAX,
        forall|i: int| 0 <= i < 4 ==> spec_field_text(card_data, i).len() <= FIELD_CHARS_MAX,
        spec_mode_pairs_present(canvas_assets.colors@, spec_mode(bg_type@)),
    ensures
        r@ == png_of(
            spec_card_canvas(
                card_data,
                text_assets.fonts.spec_default_bytes(),
                text_assets.fonts.spec_cjk_bytes(),
                text_assets.scales@,
                canvas_assets.colors@,
                spec_mode(bg_type@),
                canvas_assets.jacket_size,
                canvas_assets.jacket,
            ),
        ),
        decodes(r@),
        decoded_width_of(r@) == spec_canvas_width(canvas_assets.jacket_size as int),
        decoded_height_of(r@) == spec_canvas_height(canvas_assets.jacket_size as int),
        r@.len() >= 8,
        r@[0] == 137u8,
        r@[1] == 80u8,
        r@[2] == 78u8,
        r@[3] == 71u8,
{
    let ghost db = text_assets.fonts.spec_default_bytes();
    let ghost cb = text_assets.fonts.spec_cjk_bytes();
    let ghost scales_v = text_assets.scales@;
    let ghost colors_v = canvas_assets.colors@;
    let ghost js = canvas_assets.jacket_size;
    let ghost composite = spec_card_canvas(
        card_data,
        db,
        cb,
        scales_v,
        colors_v,
        spec_mode(bg_type@),
        js,
        canvas_assets.jacket,
    );
    let mode = mode_of(&bg_type);
    let width = canvas_assets.canvas_width();
    let height = canvas_assets.canvas_height();
    proof {
        assert(spec_text_area_width(js as int) <= 13_764) by (nonlinear_arith)
            requires
                0 <= js <= CARD_JACKET_MAX,
        ;
        assert((width as int) * (height as int) <= CANVAS_PIXELS_MAX) by (nonlinear_arith)
            requires
                0 <= width <= 2 * CARD_JACKET_MAX + 13_764 + 90,
                0 <= height <= CARD_JACKET_MAX + 60,
        ;
        assert(width == spec_canvas_width(js as int) as u32);
        assert(height == spec_canvas_height(js as int) as u32);
    }
    let mut canvas = new_canvas(width, height);
    match mode {
        crate::layout::BackgroundMode::Plain => {
            fill_vertical_gradient(&mut canvas, &canvas_assets.colors.plain, &canvas_assets.colors.plain);
        },
        crate::layout::BackgroundMode::Inverted => {
            let end = canvas_assets.colors.gradient_end(false);
            let start = canvas_assets.colors.gradient_start(false);
            fill_vertical_gradient(&mut canvas, &end, &start);
        },
        crate::layout::BackgroundMode::Custom => {
            let start = canvas_assets.colors.gradient_start(true);
            let end = canvas_assets.colors.gradient_end(true);
            fill_vertical_gradient(&mut canvas, &start, &end);
        },
        crate::layout::BackgroundMode::Gradient => {
            let start = canvas_assets.colors.gradient_start(false);
            let end = canvas_assets.colors.gradient_end(false);
            fill_vertical_gradient(&mut canvas, &start, &end);
        },
    }
    proof {
        assert(canvas == spec_background(colors_v, mode, blank_of(width, height)));
    }
    overlay_image(&mut canvas, &canvas_assets.jacket, JACKET_OFFSET as i64, JACKET_OFFSET as i64);
    proof {
        assert(composite == spec_card_fields(
            card_data,
            db,
            cb,
            scales_v,
            colors_v,
            mode,
            js,
            canvas,
            0,
        ));
    }
    let plans = compute_layout(
        &card_data,
        &text_assets.fonts,
        &text_assets.scales,
        &canvas_assets.colors,
        mode,
        canvas_assets.jacket_size,
    );
    let text_x = canvas_assets.text_offset_x();
    let mut i: usize = 0;
    while i < 4
        invariant
            i <= 4,
            img_width(canvas) == width,
            img_height(canvas) == height,
            width >= 1,
            height >= 1,
            text_x <= 3 * CARD_JACKET_MAX,
            plans@.len() == 4,
            text_assets.scales@.len() == 4,
            forall|k: int| 0 <= k < 4 ==> text_assets.scales@[k] <= SCALE_MILLI_MAX,
            forall|k: int| 0 <= k < 4 ==> spec_field_text(card_data, k).len() <= FIELD_CHARS_MAX,
            forall|k: int| 0 <= k < 4 ==> plans@[k] == spec_field_plan(
                card_data,
                text_assets.fonts.spec_default_bytes(),
                text_assets.fonts.spec_cjk_bytes(),
                text_assets.scales@,
                canvas_assets.colors@,
                mode,
                canvas_assets.jacket_size as int,
                k,
            ),
            forall|k: int| 0 <= k < 4 ==> (#[trigger] plans@[k]).line_box_height >= 4,
            text_x == spec_text_offset_x(js as int),
            db == text_assets.fonts.spec_default_bytes(),
            cb == text_assets.fonts.spec_cjk_bytes(),
            scales_v == text_assets.scales@,
            colors_v == canvas_assets.colors@,
            js == canvas_assets.jacket_size,
            composite == spec_card_fields(
                card_data,
                db,
                cb,
                scales_v,
                colors_v,
                mode,
                js,
                canvas,
                i as int,
            ),
        decreases 4 - i,
    {
        let plan = plans[i];
        proof {
            assert(plan == spec_field_plan(
                card_data,
                db,
                cb,
                scales_v,
                colors_v,
                mode,
                js as int,
                i as int,
            ));
        }
        if plan.draw {
            let text: &String = if i == 0 {
                &card_data.name
            } else if i == 1 {
                &card_data.album
            } else if i == 2 {
                &card_data.artists
            } else {
                &card_data.genres
            };
            proof {
                assert(text@ == spec_field_text(card_data, i as int));
                assert(plan.cjk == crate::text::spec_has_cjk(text@));
                assert(text_assets.fonts.spec_font_bytes(plan.cjk) == spec_selected_bytes(
                    db,
                    cb,
                    text@,
                ));
            }
            if i == 3 && !plan.boxed {
                let ink = paint_color(plan.paint);
                let font = text_assets.fonts.font_for(plan.cjk);
                proof {
                    assert(plan.y == crate::layout::spec_genres_y(
                        canvas_assets.jacket_size as int,
                    ) as i64);
                }
                draw_line(
                    &mut canvas,
                    &ink,
                    text_x as i32,
                    plan.y as i32,
                    plan.scale_milli,
                    font,
                    text.as_str(),
                );
            } else {
                let wrap_width: usize = if i == 3 {
                    GENRES_WRAP_WIDTH
                } else {
                    WRAP_WIDTH
                };
                proof {
                    assert(wrap_width == spec_field_wrap_width(i as int));
                }
                let lines = wrap_text(text.as_str(), wrap_width);
                let box_img = render_text_box(&text_assets.fonts, &lines, &plan);
                overlay_image(&mut canvas, &box_img, text_x as i64 - 2, plan.y);
            }
        }
        proof {
            assert(composite == spec_card_fields(
                card_data,
                db,
                cb,
                scales_v,
                colors_v,
                mode,
                js,
                canvas,
                i as int + 1,
            ));
        }
        i = i + 1;
    }
    proof {
        assert(composite == canvas);
    }
    encode_png(&canvas)
}

/// The PNG stream of the card the pipeline composites for this metadata,
/// these font bytes and this mode: the render size, palette, fitted
/// scales, resized jacket and every compositing step are the named
/// functions of the inputs, so the whole card is a function of them.
pub open spec fn spec_card_png(
    card: CardData,
    default_bytes: Seq<u8>,
    cjk_bytes: Seq<u8>,
    mode: BackgroundMode,
) -> Seq<u8> {
    let px = decoded_rgb_of(card.jacket_bytes@);
    let render = spec_render_size(card.jacket_size as int) as u32;
    let jacket = resized_of(
        image_of(decoded_width_of(card.jacket_bytes@), decoded_height_of(card.jacket_bytes@), px),
        render,
        render,
    );
    let colors = spec_extract(spec_clusters(px));
    let column = spec_text_area_width(render as int) as u32;
    let scales = Seq::new(
        4,
        |i: int| spec_field_scale(
            default_bytes,
            cjk_bytes,
            spec_field_text(card, i),
            spec_field_base_scale(i),
            spec_field_wrap_width(i),
            column,
        ) as u32,
    );
    png_of(spec_card_canvas(card, default_bytes, cjk_bytes, scales, colors, mode, render, jacket))
}

/// The whole pipeline, from metadata and font bytes to PNG bytes: builds
/// the canvas assets, fits the text, composites the card. Fails with
/// `FontLoad` when a font asset does not parse, `Decode` when the artwork
/// does not decode to a non-empty raster, and `NoQualifyingColor` when a
/// color filter band leaves no usable candidate. On success the bytes are
/// exactly the named composite's PNG encoding and decode back to the
/// canvas geometry the artwork's nominal size fixes.
pub fn generate_card_from_data(
    card_data: CardData,
    bg_type: String,
    default_font: Vec<u8>,
    cjk_font: Vec<u8>,
) -> (r: Result<Vec<u8>, CardError>)
    requires
        1 <= card_data.jacket_size <= NOMINAL_SIZE_MAX,
        forall|i: int| 0 <= i < 4 ==> spec_field_text(card_data, i).len() <= FIELD_CHARS_MAX,
    ensures
        r is Ok <==> (font_parses(default_font@) && font_parses(cjk_font@) && decodes(
            card_data.jacket_bytes@,
        ) && decoded_rgb_of(card_data.jacket_bytes@).len() > 0 && spec_extract_ok(
            spec_clusters(decoded_rgb_of(card_data.jacket_bytes@)),
        )),
        r is Ok ==> r.unwrap()@ == spec_card_png(
            card_data,
            default_font@,
            cjk_font@,
            spec_mode(bg_type@),
        ),
        r is Ok ==> decodes(r.unwrap()@) && decoded_width_of(r.unwrap()@) == spec_canvas_width(
            spec_render_size(card_data.jacket_size as int),
        ) && decoded_height_of(r.unwrap()@) == spec_canvas_height(
            spec_render_size(card_data.jacket_size as int),
        ),
        r is Ok ==> r.unwrap()@.len() >= 8 && r.unwrap()@[0] == 137u8 && r.unwrap()@[1] == 80u8
            && r.unwrap()@[2] == 78u8 && r.unwrap()@[3] == 71u8,
{
    let ghost dfb = default_font@;
    let ghost cfb = cjk_font@;
    let fonts = match FontAssets::load(default_font, cjk_font) {
        Ok(f) => f,
        Err(_) => {
            return Err(CardError::FontLoad);
        },
    };
    let canvas_assets = match generate_canvas_assets(&card_data) {
        Ok(a) => a,
        Err(e) => {
            return Err(e);
        },
    };
    let text_assets = generate_text_assets(&card_data, &canvas_assets, fonts);
    proof {
        assert(canvas_assets.jacket_size <= CARD_JACKET_MAX);
        crate::cluster::law_extraction_shape(
            spec_clusters(decoded_rgb_of(card_data.jacket_bytes@)),
        );
        let column = spec_text_area_width(canvas_assets.jacket_size as int) as u32;
        assert(text_assets.scales@ =~= Seq::new(
            4,
            |i: int| spec_field_scale(
                dfb,
                cfb,
                spec_field_text(card_data, i),
                spec_field_base_scale(i),
                spec_field_wrap_width(i),
                column,
            ) as u32,
        ));
    }
    let ghost card_ghost = card_data;
    let png = generate_card(card_data, canvas_assets, text_assets, bg_type);
    proof {
        assert(png@ == spec_card_png(card_ghost, dfb, cfb, spec_mode(bg_type@)));
    }
    Ok(png)
}

} // verus!
