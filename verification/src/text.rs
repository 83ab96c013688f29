//! Text layout: script-aware font selection, word-wrapping, width
//! measurement and the auto-fit scale that keeps every wrapped line inside
//! the text column.
//!
//! Font parsing, wrapping and glyph measurement run in outside crates behind
//! trusted wrappers; each wrapper's result is named as a function of plain
//! values (the font's bytes, the text, the scale), so the fitting
//! arithmetic on top of them is fully verified.

use vstd::prelude::*;

use rusttype::Font;

verus! {

/// Column width, in characters, at which the name, album and artists fields
/// word-wrap.
pub const WRAP_WIDTH: usize = 36;

/// Wrap threshold of the genres field: so wide that the field is
/// effectively a single line.
pub const GENRES_WRAP_WIDTH: usize = 10_000;

/// Largest scale the text engine ever uses, in thousandths of a pixel.
pub const SCALE_MILLI_MAX: u32 = 60_000;

#[verifier::external_type_specification]
#[verifier::external_body]
pub struct ExFont<'a>(Font<'a>);

/// Whether rusttype parses these bytes as a font face.
pub uninterp spec fn font_parses(data: Seq<u8>) -> bool;

/// The font face rusttype parses from these bytes (when they parse).
pub uninterp spec fn font_of(data: Seq<u8>) -> Font<'static>;

/// Relies on rusttype's `Font::try_from_vec`: whether owned bytes parse as
/// a font face, and the face they parse to, are functions of the bytes
/// alone.
#[verifier::external_body]
fn font_from_bytes(data: Vec<u8>) -> (r: Option<Font<'static>>)
    ensures
        r is Some <==> font_parses(data@),
        r is Some ==> r.unwrap() == font_of(data@),
{
    Font::try_from_vec(data)
}

/// An exact copy of a byte vector.
fn copy_bytes(v: &Vec<u8>) -> (r: Vec<u8>)
    ensures
        r@ == v@,
{
    let mut r: Vec<u8> = Vec::new();
    let n = v.len();
    let mut i: usize = 0;
    while i < n
        invariant
            i <= n,
            n == v@.len(),
            r@ == v@.take(i as int),
        decreases n - i,
    {
        r.push(v[i]);
        proof {
            assert(v@.take(i + 1) =~= v@.take(i as int).push(v@[i as int]));
        }
        i = i + 1;
    }
    proof {
        assert(v@.take(n as int) =~= v@);
    }
    r
}

/// An embedded font asset did not parse; fatal at process initialization.
#[derive(Clone, Copy, Debug, PartialEq, Eq, Structural)]
pub struct FontLoadError;

/// The two font faces every card is rendered with — a default Latin face
/// and a CJK-capable face — together with the bytes they were parsed from,
/// which identify them in every measurement contract. Loaded once per
/// process and shared read-only.
pub struct FontAssets {
    default_bytes: Vec<u8>,
    cjk_bytes: Vec<u8>,
    default_font: Font<'static>,
    cjk_font: Font<'static>,
}

impl FontAssets {
    /// Both faces parse from their bytes, and each stored face is the one
    /// its bytes parse to.
    #[verifier::type_invariant]
    spec fn wf(self) -> bool {
        &&& font_parses(self.default_bytes@)
        &&& font_parses(self.cjk_bytes@)
        &&& self.default_font == font_of(self.default_bytes@)
        &&& self.cjk_font == font_of(self.cjk_bytes@)
    }

    /// The bytes the default face was parsed from.
    pub closed spec fn spec_default_bytes(self) -> Seq<u8> {
        self.default_bytes@
    }

    /// The bytes the CJK-capable face was parsed from.
    pub closed spec fn spec_cjk_bytes(self) -> Seq<u8> {
        self.cjk_bytes@
    }

    /// Parses the two embedded font faces; fails exactly when either byte
    /// buffer is not a font.
    pub fn load(default_bytes: Vec<u8>, cjk_bytes: Vec<u8>) -> (r: Result<
        FontAssets,
        FontLoadError,
    >)
        ensures
            r is Ok <==> (font_parses(default_bytes@) && font_parses(cjk_bytes@)),
            r is Ok ==> r.unwrap().spec_default_bytes() == default_bytes@
                && r.unwrap().spec_cjk_bytes() == cjk_bytes@,
    {
        let default_font = match font_from_bytes(copy_bytes(&default_bytes)) {
            Some(f) => f,
            None => {
                return Err(FontLoadError);
            },
        };
        let cjk_font = match font_from_bytes(copy_bytes(&cjk_bytes)) {
            Some(f) => f,
            None => {
                return Err(FontLoadError);
            },
        };
        Ok(FontAssets { default_bytes, cjk_bytes, default_font, cjk_font })
    }

    /// The parsed default face.
    pub fn default_font(&self) -> (r: &Font<'static>)
        ensures
            *r == font_of(self.spec_default_bytes()),
    {
        proof {
            use_type_invariant(self);
        }
        &self.default_font
    }

    /// The parsed CJK-capable face.
    pub fn cjk_font(&self) -> (r: &Font<'static>)
        ensures
            *r == font_of(self.spec_cjk_bytes()),
    {
        proof {
            use_type_invariant(self);
        }
        &self.cjk_font
    }

    /// The parsed face that `cjk` selects.
    pub fn font_for(&self, cjk: bool) -> (r: &Font<'static>)
        ensures
            *r == font_of(self.spec_font_bytes(cjk)),
    {
        proof {
            use_type_invariant(self);
        }
        if cjk {
            &self.cjk_font
        } else {
            &self.default_font
        }
    }

    /// The bytes of the face that `cjk` selects.
    pub(crate) fn bytes_of(&self, cjk: bool) -> (r: &Vec<u8>)
        ensures
            r@ == self.spec_font_bytes(cjk),
            font_parses(r@),
    {
        proof {
            use_type_invariant(self);
        }
        if cjk {
            &self.cjk_bytes
        } else {
            &self.default_bytes
        }
    }

    /// The font bytes that `cjk` selects.
    pub open spec fn spec_font_bytes(self, cjk: bool) -> Seq<u8> {
        if cjk {
            self.spec_cjk_bytes()
        } else {
            self.spec_default_bytes()
        }
    }
}

/// Whether the character lies in one of the CJK blocks that select the
/// CJK-capable face: Hiragana/Katakana, CJK Unified Ideographs with their
/// extension, compatibility forms, halfwidth Katakana, and the Jamo-to-
/// Hangul-syllable range.
pub open spec fn spec_is_cjk_char(c: char) -> bool {
    ||| 0x3040 <= (c as int) <= 0x30ff
    ||| 0x3400 <= (c as int) <= 0x4dbf
    ||| 0x4e00 <= (c as int) <= 0x9fff
    ||| 0xf900 <= (c as int) <= 0xfaff
    ||| 0xff66 <= (c as int) <= 0xff9f
    ||| 0x3131 <= (c as int) <= 0xd79d
}

/// Whether any character of the text is CJK.
pub open spec fn spec_has_cjk(s: Seq<char>) -> bool {
    exists|i: int| 0 <= i < s.len() && spec_is_cjk_char(s[i])
}

/// Whether the character lies in one of the CJK blocks.
pub fn is_cjk_char(c: char) -> (r: bool)
    ensures
        r == spec_is_cjk_char(c),
{
    let u = c as u32;
    (0x3040 <= u && u <= 0x30ff) || (0x3400 <= u && u <= 0x4dbf) || (0x4e00 <= u && u <= 0x9fff)
        || (0xf900 <= u && u <= 0xfaff) || (0xff66 <= u && u <= 0xff9f) || (0x3131 <= u && u
        <= 0xd79d)
}

/// Whether any character of the text is CJK; a CJK text selects the
/// CJK-capable face.
pub fn has_cjk_text(s: &str) -> (r: bool)
    ensures
        r == spec_has_cjk(s@),
{
    let n = s.unicode_len();
    let mut i: usize = 0;
    while i < n
        invariant
            i <= n,
            n == s@.len(),
            forall|j: int| 0 <= j < i ==> !spec_is_cjk_char(s@[j]),
        decreases n - i,
    {
        if is_cjk_char(s.get_char(i)) {
            return true;
        }
        i = i + 1;
    }
    false
}

/// The lines that word-wrapping splits a text into at a column width.
pub uninterp spec fn wrapped_of(text: Seq<char>, width: usize) -> Seq<Seq<char>>;

/// Relies on `textwrap::wrap`: word-wrapping (optimal-fit by default) at a
/// display-width column, a deterministic function of the text and the
/// width. Every line
/// beyond the first consumes at least one character (a break or a word),
/// so there are never more lines than characters plus one.
#[verifier::external_body]
pub(crate) fn wrap_text(text: &str, width: usize) -> (r: Vec<String>)
    ensures
        r@.map_values(|s: String| s@) == wrapped_of(text@, width),
        r@.len() <= text@.len() + 1,
{
    textwrap::wrap(text, width).iter().map(|line| line.to_string()).collect()
}

/// Pixel width of one line of text at a uniform scale (in thousandths of a
/// pixel) under the font parsed from the given bytes.
pub uninterp spec fn line_width_of(font: Seq<u8>, text: Seq<char>, scale_milli: u32) -> int;

/// Relies on imageproc's `text_size` over a rusttype font: the rendered
/// width of one line, a deterministic function of the font bytes, the text
/// and the scale, and never negative (it is a maximum of bounding-box
/// edges starting at zero). The font bytes must parse; the scale is
/// converted to pixels by dividing by 1000.
#[verifier::external_body]
pub(crate) fn measure_line_width(font_bytes: &Vec<u8>, text: &str, scale_milli: u32) -> (w: i32)
    requires
        font_parses(font_bytes@),
        scale_milli <= SCALE_MILLI_MAX,
    ensures
        w == line_width_of(font_bytes@, text@, scale_milli),
        w >= 0,
{
    let font = Font::try_from_bytes(font_bytes.as_slice()).unwrap();
    let thousand = rusttype::Scale::uniform(1000u16.into());
    let mut scale = rusttype::Scale::uniform((scale_milli as u16).into());
    scale.x = scale.x / thousand.x;
    scale.y = scale.y / thousand.y;
    let (w, _h) = imageproc::drawing::text_size(scale, &font, text);
    w
}

/// Ceiled glyph-run height (ascent minus descent, in pixels) of the font
/// parsed from the given bytes, at a uniform scale in thousandths of a
/// pixel.
pub uninterp spec fn line_height_of(font: Seq<u8>, scale_milli: u32) -> int;

/// Relies on rusttype's `v_metrics`: the ceiled ascent-minus-descent of the
/// face at a scale, a deterministic, never negative function of the font
/// bytes and the scale. The font bytes must parse. rusttype scales the
/// face so that ascent minus descent equals the scale's pixel height,
/// which keeps the result within a pixel of the scale and far inside the
/// stated bound.
#[verifier::external_body]
pub(crate) fn measure_line_height(font_bytes: &Vec<u8>, scale_milli: u32) -> (h: u32)
    requires
        font_parses(font_bytes@),
        scale_milli <= SCALE_MILLI_MAX,
    ensures
        h == line_height_of(font_bytes@, scale_milli),
        h <= 1_000_000,
{
    let font = Font::try_from_bytes(font_bytes.as_slice()).unwrap();
    let thousand = rusttype::Scale::uniform(1000u16.into());
    let mut scale = rusttype::Scale::uniform((scale_milli as u16).into());
    scale.x = scale.x / thousand.x;
    scale.y = scale.y / thousand.y;
    let vm = font.v_metrics(scale);
    let h = (vm.ascent - vm.descent).ceil();
    h as u32
}

/// The scale a single line is drawn at: the base scale, shrunk in
/// proportion when the line's measured width exceeds the column. Scales
/// are quantized to thousandths of a pixel, so a line wider than a
/// thousand columns at its base scale floors to scale zero (drawn
/// invisibly small); the division runs only for widths beyond the column,
/// never by zero.
pub open spec fn spec_fit_line(width: int, base_milli: u32, column: u32) -> int {
    if width > column {
        base_milli * column / width
    } else {
        base_milli as int
    }
}

/// The scale of a whole field: the minimum of its lines' scales, so that
/// every line fits.
pub open spec fn spec_fit_scale(widths: Seq<int>, base_milli: u32, column: u32) -> int
    decreases widths.len(),
{
    if widths.len() == 0 {
        base_milli as int
    } else {
        let rest = spec_fit_scale(widths.drop_last(), base_milli, column);
        let last = spec_fit_line(widths.last(), base_milli, column);
        if last < rest {
            last
        } else {
            rest
        }
    }
}

/// A line's fitted scale never exceeds the base scale.
proof fn lemma_fit_line_le_base(width: int, base_milli: u32, column: u32)
    ensures
        spec_fit_line(width, base_milli, column) <= base_milli,
{
    if width > column {
        assert(base_milli * column / width <= base_milli) by (nonlinear_arith)
            requires
                width > column >= 0,
        ;
    }
}

/// A field's fitted scale never exceeds the base scale.
proof fn lemma_fit_scale_le_base(widths: Seq<int>, base_milli: u32, column: u32)
    ensures
        spec_fit_scale(widths, base_milli, column) <= base_milli,
    decreases widths.len(),
{
    if widths.len() > 0 {
        lemma_fit_scale_le_base(widths.drop_last(), base_milli, column);
        lemma_fit_line_le_base(widths.last(), base_milli, column);
    }
}

/// A field's fitted scale is no larger than any one line's fitted scale.
proof fn lemma_fit_scale_min(widths: Seq<int>, base_milli: u32, column: u32, i: int)
    requires
        0 <= i < widths.len(),
    ensures
        spec_fit_scale(widths, base_milli, column) <= spec_fit_line(widths[i], base_milli, column),
    decreases widths.len(),
{
    if i < widths.len() - 1 {
        lemma_fit_scale_min(widths.drop_last(), base_milli, column, i);
    }
}

/// The auto-fit guarantee: scaling any measured line width from the base
/// scale down to the field's fitted scale brings it inside the column.
pub proof fn law_fitted_lines_fit(widths: Seq<int>, base_milli: u32, column: u32, i: int)
    requires
        base_milli >= 1,
        0 <= i < widths.len(),
        forall|j: int| 0 <= j < widths.len() ==> widths[j] >= 0,
    ensures
        widths[i] * spec_fit_scale(widths, base_milli, column) / (base_milli as int) <= column,
{
    let fitted = spec_fit_scale(widths, base_milli, column);
    let w = widths[i];
    lemma_fit_scale_min(widths, base_milli, column, i);
    lemma_fit_scale_le_base(widths, base_milli, column);
    lemma_fit_scale_nonneg(widths, base_milli, column);
    if w > column {
        assert(w * fitted / (base_milli as int) <= column) by (nonlinear_arith)
            requires
                w > column >= 0,
                base_milli >= 1,
                fitted <= base_milli * column / w,
                fitted >= 0,
        ;
    } else {
        assert(w * fitted / (base_milli as int) <= column) by (nonlinear_arith)
            requires
                0 <= w <= column,
                base_milli >= 1,
                0 <= fitted <= base_milli,
        ;
    }
}

/// A fitted scale is never negative.
proof fn lemma_fit_scale_nonneg(widths: Seq<int>, base_milli: u32, column: u32)
    ensures
        spec_fit_scale(widths, base_milli, column) >= 0,
    decreases widths.len(),
{
    if widths.len() > 0 {
        lemma_fit_scale_nonneg(widths.drop_last(), base_milli, column);
        let w = widths.last();
        if w > column {
            assert(base_milli * column / w >= 0) by (nonlinear_arith)
                requires
                    w > column >= 0,
            ;
        }
    }
}

/// The fitted scale of a field from its measured line widths: the minimum
/// over the lines of the base scale shrunk to the column, guarded against
/// division by zero because only widths beyond the column divide.
pub fn fit_scale_for_lines(widths: &Vec<i32>, base_milli: u32, column: u32) -> (s: u32)
    requires
        base_milli <= SCALE_MILLI_MAX,
        forall|j: int| 0 <= j < widths@.len() ==> widths@[j] >= 0,
    ensures
        s == spec_fit_scale(widths@.map_values(|w: i32| w as int), base_milli, column),
        s <= base_milli,
{
    let ghost wseq = widths@.map_values(|w: i32| w as int);
    let mut s: u32 = base_milli;
    let n = widths.len();
    let mut i: usize = 0;
    while i < n
        invariant
            i <= n,
            n == widths@.len(),
            wseq == widths@.map_values(|w: i32| w as int),
            forall|j: int| 0 <= j < widths@.len() ==> widths@[j] >= 0,
            base_milli <= SCALE_MILLI_MAX,
            s == spec_fit_scale(wseq.take(i as int), base_milli, column),
            s <= base_milli,
        decreases n - i,
    {
        let w = widths[i];
        let line_scale: u32;
        if w > 0 && (w as u32) > column {
            proof {
                assert((base_milli as int) * (column as int) < 0x8000_0000_0000_0000int
                    && 0 <= (base_milli as int) * (column as int) / (w as int)
                    <= base_milli) by (nonlinear_arith)
                    requires
                        w > column >= 0,
                        0 <= base_milli < 0x1_0000_0000,
                        column < 0x1_0000_0000,
                ;
            }
            line_scale = ((base_milli as u64) * (column as u64) / (w as u64)) as u32;
        } else {
            line_scale = base_milli;
        }
        proof {
            assert(wseq.take(i + 1).drop_last() =~= wseq.take(i as int));
            assert(wseq.take(i + 1).last() == wseq[i as int]);
        }
        if line_scale < s {
            s = line_scale;
        }
        i = i + 1;
    }
    proof {
        assert(wseq.take(n as int) =~= wseq);
    }
    s
}

/// The widths of the given lines at a base scale under the selected face.
fn measure_lines(fonts: &FontAssets, cjk: bool, lines: &Vec<String>, base_milli: u32) -> (r: Vec<
    i32,
>)
    requires
        base_milli <= SCALE_MILLI_MAX,
    ensures
        r@.map_values(|w: i32| w as int) == lines@.map_values(|s: String| s@).map_values(
            |l: Seq<char>| line_width_of(fonts.spec_font_bytes(cjk), l, base_milli),
        ),
        forall|j: int| 0 <= j < r@.len() ==> r@[j] >= 0,
{
    let bytes = fonts.bytes_of(cjk);
    let mut r: Vec<i32> = Vec::new();
    let n = lines.len();
    let mut i: usize = 0;
    while i < n
        invariant
            i <= n,
            n == lines@.len(),
            bytes@ == fonts.spec_font_bytes(cjk),
            font_parses(bytes@),
            base_milli <= SCALE_MILLI_MAX,
            r@.len() == i,
            forall|j: int| 0 <= j < i ==> r@[j] == line_width_of(
                fonts.spec_font_bytes(cjk),
                lines@[j]@,
                base_milli,
            ) && r@[j] >= 0,
        decreases n - i,
    {
        r.push(measure_line_width(bytes, lines[i].as_str(), base_milli));
        i = i + 1;
    }
    proof {
        assert(r@.map_values(|w: i32| w as int) =~= lines@.map_values(|s: String| s@).map_values(
            |l: Seq<char>| line_width_of(fonts.spec_font_bytes(cjk), l, base_milli),
        ));
    }
    r
}

/// The font bytes a text selects: the CJK-capable face's when any of its
/// characters is CJK, the default face's otherwise.
pub open spec fn spec_selected_bytes(
    default_bytes: Seq<u8>,
    cjk_bytes: Seq<u8>,
    text: Seq<char>,
) -> Seq<u8> {
    if spec_has_cjk(text) {
        cjk_bytes
    } else {
        default_bytes
    }
}

/// The fitted scale of one text field: wrap it at the field's wrap width,
/// measure each line at the base scale under the script-selected face
/// (identified by its bytes), and shrink to the minimum scale that fits
/// every line in the column.
pub open spec fn spec_field_scale(
    default_bytes: Seq<u8>,
    cjk_bytes: Seq<u8>,
    text: Seq<char>,
    base_milli: u32,
    wrap_width: usize,
    column: u32,
) -> int {
    spec_fit_scale(
        wrapped_of(text, wrap_width).map_values(
            |l: Seq<char>| line_width_of(
                spec_selected_bytes(default_bytes, cjk_bytes, text),
                l,
                base_milli,
            ),
        ),
        base_milli,
        column,
    )
}

/// Computes one field's fitted scale.
pub fn field_scale(fonts: &FontAssets, text: &str, base_milli: u32, wrap_width: usize, column: u32) -> (s:
    u32)
    requires
        base_milli <= SCALE_MILLI_MAX,
    ensures
        s == spec_field_scale(
            fonts.spec_default_bytes(),
            fonts.spec_cjk_bytes(),
            text@,
            base_milli,
            wrap_width,
            column,
        ),
        s <= base_milli,
{
    let cjk = has_cjk_text(text);
    let lines = wrap_text(text, wrap_width);
    let widths = measure_lines(fonts, cjk, &lines, base_milli);
    fit_scale_for_lines(&widths, base_milli, column)
}

} // verus!
