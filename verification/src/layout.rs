//! Per-field layout decisions: the ink each text field is painted with,
//! the knockout-box geometry, and the vertical cursor that stacks the four
//! rows — with the genres row pinned to a fixed bottom margin and the album
//! row silently skipped on singles.

use vstd::prelude::*;

use crate::cards::{
    spec_canvas_height, GradientColors, GradientColorsView, GENRES_SCALE_MILLI,
    GRADIENT_BLEND_ALPHA, JACKET_OFFSET, JACKET_SIZE_MAX, TEXT_OFFSET_Y, TEXT_SCALE_MILLI,
    TEXT_SPACING,
};
use crate::color::{spec_blend, spec_luminance, Color, LUMINANCE_THRESHOLD};
use crate::model::CardData;
use crate::text::{
    has_cjk_text, line_height_of, measure_line_height, spec_has_cjk, spec_selected_bytes,
    wrap_text, wrapped_of, FontAssets, GENRES_WRAP_WIDTH, SCALE_MILLI_MAX, WRAP_WIDTH,
};

verus! {

/// Upper bound on the character count of one text field: keeps every
/// cursor position and box dimension inside its machine integer.
pub const FIELD_CHARS_MAX: usize = 10_000;

/// Bottom margin of the genres row below the canvas' lower inset.
pub const GENRES_BOTTOM_MARGIN: u32 = 15;

/// The background a card is composited over.
#[derive(Clone, Copy, Debug, PartialEq, Eq, Structural)]
pub enum BackgroundMode {
    Plain,
    Gradient,
    Inverted,
    Custom,
}

/// The mode a background selector string names; anything unrecognized
/// falls back to the default gradient.
pub open spec fn spec_mode(s: Seq<char>) -> BackgroundMode {
    if s == "plain"@ {
        BackgroundMode::Plain
    } else if s == "inverted"@ {
        BackgroundMode::Inverted
    } else if s == "custom"@ {
        BackgroundMode::Custom
    } else {
        BackgroundMode::Gradient
    }
}

/// Parses a background selector string.
pub fn mode_of(s: &String) -> (r: BackgroundMode)
    ensures
        r == spec_mode(s@),
{
    if *s == "plain".to_owned() {
        BackgroundMode::Plain
    } else if *s == "inverted".to_owned() {
        BackgroundMode::Inverted
    } else if *s == "custom".to_owned() {
        BackgroundMode::Custom
    } else {
        BackgroundMode::Gradient
    }
}

/// The ink a field is painted with: opaque white, translucent black, or
/// the knockout punch-through box.
#[derive(Clone, Copy, Debug, PartialEq, Eq, Structural)]
pub enum TextPaint {
    White,
    Black,
    Knockout,
}

/// The text-color decision: on a bright background (luminance above the
/// threshold) a single-character field is painted black and a longer field
/// takes the knockout path; on a dark background every field is white.
pub open spec fn spec_text_paint(lum_e9: int, chars: nat) -> TextPaint {
    if lum_e9 > LUMINANCE_THRESHOLD {
        if chars == 1 {
            TextPaint::Black
        } else {
            TextPaint::Knockout
        }
    } else {
        TextPaint::White
    }
}

/// The background color whose luminance drives a field's text-color
/// decision: the genres row reads the gradient's end stop (or the flat
/// color in plain and inverted modes), every other row reads the 50%-alpha
/// blend of the two stops (or the flat color in plain mode).
pub open spec fn spec_reference_color(
    colors: GradientColorsView,
    mode: BackgroundMode,
    is_genres: bool,
) -> Color {
    if is_genres {
        match mode {
            BackgroundMode::Plain => colors.plain,
            BackgroundMode::Inverted => colors.plain,
            BackgroundMode::Gradient => colors.gradient.unwrap().1,
            BackgroundMode::Custom => colors.custom_gradient.unwrap().1,
        }
    } else {
        match mode {
            BackgroundMode::Plain => colors.plain,
            BackgroundMode::Custom => spec_blend(
                colors.custom_gradient.unwrap().0,
                colors.custom_gradient.unwrap().1,
                GRADIENT_BLEND_ALPHA,
            ),
            _ => spec_blend(
                colors.gradient.unwrap().0,
                colors.gradient.unwrap().1,
                GRADIENT_BLEND_ALPHA,
            ),
        }
    }
}

/// Which gradient pairs a mode requires of the palette.
pub open spec fn spec_mode_pairs_present(colors: GradientColorsView, mode: BackgroundMode) -> bool {
    match mode {
        BackgroundMode::Plain => true,
        BackgroundMode::Custom => colors.custom_gradient is Some,
        _ => colors.gradient is Some,
    }
}

/// The text of field `i`, in the fixed row order name, album, artists,
/// genres.
pub open spec fn spec_field_text(card: CardData, i: int) -> Seq<char> {
    if i == 0 {
        card.name@
    } else if i == 1 {
        card.album@
    } else if i == 2 {
        card.artists@
    } else {
        card.genres@
    }
}

/// Base font scale of field `i`, in thousandths of a pixel.
pub open spec fn spec_field_base_scale(i: int) -> u32 {
    if i == 3 {
        GENRES_SCALE_MILLI
    } else {
        TEXT_SCALE_MILLI
    }
}

/// Wrap width of field `i`, in characters.
pub open spec fn spec_field_wrap_width(i: int) -> usize {
    if i == 3 {
        GENRES_WRAP_WIDTH
    } else {
        WRAP_WIDTH
    }
}

/// A glyph-run height tightened by 20% (rounded to nearest) once it
/// exceeds 12 pixels, to reduce visual leading.
pub open spec fn spec_shrunk_height(h: int) -> int {
    if h > 12 {
        (8 * h + 5) / 10
    } else {
        h
    }
}

/// Vertical draw offset inside a line's box, countering font-metric
/// overshoot: nothing below 11 pixels, minus 16.67% of the height up to 48
/// pixels, a fixed 8 pixels beyond.
pub open spec fn spec_inner_y(h: int) -> int {
    if h < 11 {
        0
    } else if h < 48 {
        -((1667 * h + 5000) / 10000)
    } else {
        -8
    }
}

/// The matching downward nudge of a whole box when it is laid onto the
/// canvas.
pub open spec fn spec_outer_nudge(box_h: int) -> int {
    if box_h < 11 {
        0
    } else if box_h < 48 {
        (1667 * box_h + 5000) / 10000
    } else {
        8
    }
}

/// Height of one line's box of field `i`: its shrunk glyph height plus
/// four pixels of padding. The fonts are identified by their bytes.
pub open spec fn spec_line_box_height(
    card: CardData,
    default_bytes: Seq<u8>,
    cjk_bytes: Seq<u8>,
    scale: u32,
    i: int,
) -> int {
    let text = spec_field_text(card, i);
    spec_shrunk_height(
        line_height_of(spec_selected_bytes(default_bytes, cjk_bytes, text), scale),
    ) + 4
}

/// Height of the whole stacked box of field `i`: one line box per wrapped
/// line.
pub open spec fn spec_field_box_height(
    card: CardData,
    default_bytes: Seq<u8>,
    cjk_bytes: Seq<u8>,
    scale: u32,
    i: int,
) -> int {
    let text = spec_field_text(card, i);
    wrapped_of(text, spec_field_wrap_width(i)) .len() * spec_line_box_height(
        card,
        default_bytes,
        cjk_bytes,
        scale,
        i,
    )
}

/// The ink of field `i` against this palette and mode.
pub open spec fn spec_field_paint(
    card: CardData,
    colors: GradientColorsView,
    mode: BackgroundMode,
    i: int,
) -> TextPaint {
    spec_text_paint(
        spec_luminance(spec_reference_color(colors, mode, i == 3)),
        spec_field_text(card, i).len(),
    )
}

/// Whether field `i` advances the vertical cursor: empty fields do not,
/// and a genres row painted as plain text (not knockout) is drawn at its
/// pinned position without touching the cursor.
pub open spec fn spec_field_advances(
    card: CardData,
    colors: GradientColorsView,
    mode: BackgroundMode,
    i: int,
) -> bool {
    &&& spec_field_text(card, i).len() > 0
    &&& !(i == 3 && !(spec_field_paint(card, colors, mode, i) is Knockout))
}

/// The vertical cursor before field `i` is laid out: the fixed top offset
/// plus each earlier advancing field's box height and row spacing. The
/// album row advances the cursor even on singles, so the rows below keep
/// their positions.
pub open spec fn spec_cursor_before(
    card: CardData,
    default_bytes: Seq<u8>,
    cjk_bytes: Seq<u8>,
    scales: Seq<u32>,
    colors: GradientColorsView,
    mode: BackgroundMode,
    i: int,
) -> int
    decreases i,
{
    if i <= 0 {
        TEXT_OFFSET_Y as int
    } else {
        let prev = spec_cursor_before(card, default_bytes, cjk_bytes, scales, colors, mode, i - 1);
        if spec_field_advances(card, colors, mode, i - 1) {
            prev + spec_field_box_height(card, default_bytes, cjk_bytes, scales[i - 1], i - 1)
                + TEXT_SPACING
        } else {
            prev
        }
    }
}

/// Vertical position of the genres row: a fixed margin above the canvas'
/// bottom inset, independent of the cursor.
pub open spec fn spec_genres_y(jacket_size: int) -> int {
    spec_canvas_height(jacket_size) - JACKET_OFFSET - GENRES_BOTTOM_MARGIN
}

/// One field's layout decisions, ready to render.
#[derive(Clone, Copy, Debug, PartialEq, Eq, Structural)]
pub struct FieldPlan {
    /// Whether anything of this field reaches the canvas.
    pub draw: bool,
    /// Whether the field renders as a stacked line-box raster; a genres
    /// row outside the knockout path is drawn as plain text instead.
    pub boxed: bool,
    /// The ink.
    pub paint: TextPaint,
    /// Vertical position on the canvas.
    pub y: i64,
    /// Height of the field's stacked box.
    pub box_height: u64,
    /// Height of one line's box.
    pub line_box_height: u64,
    /// Draw offset inside each line's box.
    pub inner_y: i32,
    /// The field's fitted scale, in thousandths of a pixel.
    pub scale_milli: u32,
    /// Whether the CJK-capable face renders this field.
    pub cjk: bool,
}

/// The layout of field `i`.
pub open spec fn spec_field_plan(
    card: CardData,
    default_bytes: Seq<u8>,
    cjk_bytes: Seq<u8>,
    scales: Seq<u32>,
    colors: GradientColorsView,
    mode: BackgroundMode,
    jacket_size: int,
    i: int,
) -> FieldPlan {
    let text = spec_field_text(card, i);
    let paint = spec_field_paint(card, colors, mode, i);
    let line_h = spec_line_box_height(card, default_bytes, cjk_bytes, scales[i], i);
    let box_h = spec_field_box_height(card, default_bytes, cjk_bytes, scales[i], i);
    FieldPlan {
        draw: text.len() > 0 && !(i == 1 && card.album_type@ == "single"@),
        boxed: i != 3 || paint is Knockout,
        paint,
        y: if i == 3 {
            spec_genres_y(jacket_size) as i64
        } else {
            (spec_cursor_before(card, default_bytes, cjk_bytes, scales, colors, mode, i)
                + spec_outer_nudge(box_h)) as i64
        },
        box_height: box_h as u64,
        line_box_height: line_h as u64,
        inner_y: spec_inner_y(spec_shrunk_height(
            line_height_of(spec_selected_bytes(default_bytes, cjk_bytes, text), scales[i]),
        )) as i32,
        scale_milli: scales[i],
        cjk: spec_has_cjk(text),
    }
}

/// The reference background color of a row.
fn reference_color(colors: &GradientColors, mode: BackgroundMode, is_genres: bool) -> (c: Color)
    requires
        spec_mode_pairs_present(colors@, mode),
    ensures
        c == spec_reference_color(colors@, mode, is_genres),
{
    if is_genres {
        match mode {
            BackgroundMode::Plain => colors.plain,
            BackgroundMode::Inverted => colors.plain,
            BackgroundMode::Gradient => colors.gradient.as_ref().unwrap().1,
            BackgroundMode::Custom => colors.custom_gradient.as_ref().unwrap().1,
        }
    } else {
        match mode {
            BackgroundMode::Plain => colors.plain,
            BackgroundMode::Custom => {
                let pair = colors.custom_gradient.as_ref().unwrap();
                crate::color::blend(&pair.0, &pair.1, GRADIENT_BLEND_ALPHA)
            },
            _ => {
                let pair = colors.gradient.as_ref().unwrap();
                crate::color::blend(&pair.0, &pair.1, GRADIENT_BLEND_ALPHA)
            },
        }
    }
}

/// The ink of one field: its character count against the reference
/// luminance of its row.
fn field_paint(colors: &GradientColors, mode: BackgroundMode, is_genres: bool, chars: usize) -> (p:
    TextPaint)
    requires
        spec_mode_pairs_present(colors@, mode),
    ensures
        p == spec_text_paint(
            spec_luminance(spec_reference_color(colors@, mode, is_genres)),
            chars as nat,
        ),
{
    let reference = reference_color(colors, mode, is_genres);
    let lum = crate::color::luminance(&reference);
    if lum > LUMINANCE_THRESHOLD {
        if chars == 1 {
            TextPaint::Black
        } else {
            TextPaint::Knockout
        }
    } else {
        TextPaint::White
    }
}

/// Lays out the four text rows: decides each row's ink and geometry and
/// advances the vertical cursor, skipping empty fields, pinning the genres
/// row to the bottom margin, and omitting the album row's box on singles
/// while keeping its height in the cursor.
#[verifier::rlimit(100)]
pub fn compute_layout(
    card: &CardData,
    fonts: &FontAssets,
    scales: &Vec<u32>,
    colors: &GradientColors,
    mode: BackgroundMode,
    jacket_size: u32,
) -> (r: Vec<FieldPlan>)
    requires
        scales@.len() == 4,
        forall|i: int| 0 <= i < 4 ==> scales@[i] <= SCALE_MILLI_MAX,
        jacket_size <= JACKET_SIZE_MAX,
        forall|i: int| 0 <= i < 4 ==> spec_field_text(*card, i).len() <= FIELD_CHARS_MAX,
        spec_mode_pairs_present(colors@, mode),
    ensures
        r@.len() == 4,
        forall|i: int| 0 <= i < 4 ==> r@[i] == spec_field_plan(
            *card,
            fonts.spec_default_bytes(),
            fonts.spec_cjk_bytes(),
            scales@,
            colors@,
            mode,
            jacket_size as int,
            i,
        ),
        forall|i: int| 0 <= i < 4 ==> (#[trigger] r@[i]).line_box_height >= 4,
{
    let genres_y: i64 = jacket_size as i64 + 2 * (JACKET_OFFSET as i64) - (JACKET_OFFSET as i64)
        - (GENRES_BOTTOM_MARGIN as i64);
    let mut r: Vec<FieldPlan> = Vec::new();
    let mut cursor: i64 = TEXT_OFFSET_Y as i64;
    let mut i: usize = 0;
    while i < 4
        invariant
            i <= 4,
            r@.len() == i,
            scales@.len() == 4,
            forall|k: int| 0 <= k < 4 ==> scales@[k] <= SCALE_MILLI_MAX,
            jacket_size <= JACKET_SIZE_MAX,
            forall|k: int| 0 <= k < 4 ==> spec_field_text(*card, k).len() <= FIELD_CHARS_MAX,
            spec_mode_pairs_present(colors@, mode),
            genres_y == spec_genres_y(jacket_size as int),
            forall|k: int| 0 <= k < i ==> r@[k] == spec_field_plan(
                *card,
                fonts.spec_default_bytes(),
                fonts.spec_cjk_bytes(),
                scales@,
                colors@,
                mode,
                jacket_size as int,
                k,
            ),
            forall|k: int| 0 <= k < i ==> (#[trigger] r@[k]).line_box_height >= 4,
            cursor == spec_cursor_before(
                *card,
                fonts.spec_default_bytes(),
                fonts.spec_cjk_bytes(),
                scales@,
                colors@,
                mode,
                i as int,
            ),
            TEXT_OFFSET_Y <= cursor <= TEXT_OFFSET_Y + (i as i64) * 0x2000_0000_0000_0000i64 / 4,
        decreases 4 - i,
    {
        let text: &String = if i == 0 {
            &card.name
        } else if i == 1 {
            &card.album
        } else if i == 2 {
            &card.artists
        } else {
            &card.genres
        };
        proof {
            assert(text@ == spec_field_text(*card, i as int));
        }
        let chars = text.as_str().unicode_len();
        let cjk = has_cjk_text(text.as_str());
        let wrap_width: usize = if i == 3 {
            GENRES_WRAP_WIDTH
        } else {
            WRAP_WIDTH
        };
        let lines = wrap_text(text.as_str(), wrap_width);
        let count = lines.len();
        proof {
            assert(count == wrapped_of(text@, wrap_width).len()) by {
                assert(lines@.map_values(|s: String| s@).len() == lines@.len());
            }
        }
        let scale = scales[i];
        let h = measure_line_height(fonts.bytes_of(cjk), scale);
        let shrunk: u64 = if h > 12 {
            (8 * (h as u64) + 5) / 10
        } else {
            h as u64
        };
        let line_box: u64 = shrunk + 4;
        proof {
            assert((count as int) * (line_box as int) <= (FIELD_CHARS_MAX + 1) * 0x1_0000_0000u64)
                by (nonlinear_arith)
                requires
                    0 <= count <= FIELD_CHARS_MAX + 1,
                    0 <= line_box <= 0x1_0000_0000u64,
            ;
        }
        let box_h: u64 = (count as u64) * line_box;
        let paint = field_paint(colors, mode, i == 3, chars);
        let inner_y: i32 = if shrunk < 11 {
            0
        } else if shrunk < 48 {
            -(((1667 * shrunk + 5000) / 10000) as i32)
        } else {
            -8
        };
        let nudge: i64 = if box_h < 11 {
            0
        } else if box_h < 48 {
            ((1667 * (box_h as u128) + 5000) / 10000) as i64
        } else {
            8
        };
        let single = i == 1 && card.album_type == "single".to_owned();
        let plan = FieldPlan {
            draw: chars > 0 && !single,
            boxed: i != 3 || matches!(paint, TextPaint::Knockout),
            paint,
            y: if i == 3 {
                genres_y
            } else {
                cursor + nudge
            },
            box_height: box_h,
            line_box_height: line_box,
            inner_y,
            scale_milli: scale,
            cjk,
        };
        proof {
            assert(plan == spec_field_plan(
                *card,
                fonts.spec_default_bytes(),
                fonts.spec_cjk_bytes(),
                scales@,
                colors@,
                mode,
                jacket_size as int,
                i as int,
            ));
        }
        r.push(plan);
        let knockout = matches!(paint, TextPaint::Knockout);
        if chars > 0 && !(i == 3 && !knockout) {
            cursor = cursor + box_h as i64 + TEXT_SPACING as i64;
        }
        i = i + 1;
    }
    r
}

/// Single-character fields never take the knockout path, and any field on
/// a background whose luminance does not exceed the threshold is painted
/// white — never black, never knockout.
pub proof fn law_text_paint(lum_e9: int, chars: nat)
    ensures
        chars == 1 ==> spec_text_paint(lum_e9, chars) != TextPaint::Knockout,
        lum_e9 <= LUMINANCE_THRESHOLD ==> spec_text_paint(lum_e9, chars) == TextPaint::White,
{
}

/// On a single, the album row draws nothing, yet it still advances the
/// cursor by its full box height, and the genres row keeps its fixed
/// position above the canvas' bottom inset.
pub proof fn law_single_album_layout(
    card: CardData,
    default_bytes: Seq<u8>,
    cjk_bytes: Seq<u8>,
    scales: Seq<u32>,
    colors: GradientColorsView,
    mode: BackgroundMode,
    jacket_size: int,
)
    requires
        card.album_type@ == "single"@,
        card.album@.len() > 0,
    ensures
        !spec_field_plan(card, default_bytes, cjk_bytes, scales, colors, mode, jacket_size, 1).draw,
        spec_field_plan(card, default_bytes, cjk_bytes, scales, colors, mode, jacket_size, 3).y
            == spec_genres_y(jacket_size) as i64,
        spec_cursor_before(card, default_bytes, cjk_bytes, scales, colors, mode, 2)
            == spec_cursor_before(card, default_bytes, cjk_bytes, scales, colors, mode, 1)
            + spec_field_box_height(card, default_bytes, cjk_bytes, scales[1], 1) + TEXT_SPACING,
{
}

} // verus!
