//! Color extraction: k-means clustering of the artwork's pixels followed by
//! band-pass selection of a dominant flat color, a gradient pair and a
//! candidate palette.
//!
//! The clustering itself runs in an outside color stack behind one trusted
//! wrapper whose result is named per seed; everything after it — the
//! best-of-several-seeds selection, the two band-pass filters, deduplication
//! and the pair choice — is verified code over plain byte colors.

use vstd::prelude::*;

use crate::cards::{GradientColors, GradientColorsView};
use crate::color::Color;
use kmeans_colors::Sort;
use palette::IntoColor;

verus! {

/// Number of clusters each k-means run asks for.
pub const KMEANS_CLUSTERS: usize = 9;

/// Iteration cap of one k-means run.
pub const KMEANS_MAX_ITER: usize = 20;

/// Convergence tolerance of one k-means run, in whole Lab distance units.
pub const KMEANS_CONVERGE: u16 = 5;

/// Number of independently seeded restarts; the seeds are `0..KMEANS_RUNS`.
pub const KMEANS_RUNS: u64 = 8;

/// Exclusive upper bound on the channel sum of a gradient/palette candidate
/// (2.9 in unit-channel terms, scaled by 255).
pub const GRADIENT_BRIGHT_LIMIT: u32 = 740;

/// Exclusive lower bound on the channel sum of a gradient/palette candidate
/// (0.7 in unit-channel terms, scaled by 255).
pub const GRADIENT_DARK_LIMIT: u32 = 178;

/// Exclusive upper bound on the channel sum of a flat-color candidate
/// (2.1 in unit-channel terms, scaled by 255).
pub const PLAIN_BRIGHT_LIMIT: u32 = 536;

/// Exclusive lower bound on the channel sum of a flat-color candidate
/// (0.8 in unit-channel terms, scaled by 255).
pub const PLAIN_DARK_LIMIT: u32 = 204;

/// One cluster of a k-means run: the centroid as sRGB bytes and the
/// cluster's share of the pixels as the raw bits of an `f32` fraction in
/// [0, 1] (bit order and numeric order agree for such values).
#[derive(Clone, Copy, Debug, PartialEq, Eq, Structural)]
pub struct ClusterColor {
    pub r: u8,
    pub g: u8,
    pub b: u8,
    pub share_bits: u32,
}

/// A color filter band matched no cluster, so no background palette can be
/// derived from this artwork.
#[derive(Clone, Copy, Debug, PartialEq, Eq, Structural)]
pub struct NoQualifyingColorError;

/// The clusters that one seeded k-means run of the given RGB pixel buffer
/// settles on, ordered from darkest to lightest centroid.
pub uninterp spec fn clusters_of(
    pixels: Seq<u8>,
    k: usize,
    max_iter: usize,
    converge: u16,
    seed: u64,
) -> Seq<ClusterColor>;

/// The convergence score of that same run, as `f32` bits; lower bits mean a
/// lower (better) score.
pub uninterp spec fn cluster_score_of(
    pixels: Seq<u8>,
    k: usize,
    max_iter: usize,
    converge: u16,
    seed: u64,
) -> u32;

/// Runs one seeded k-means clustering of an RGB pixel buffer.
///
/// Relies on three steps of the outside color stack, each a deterministic
/// function of the arguments alone: palette's `from_component_slice` and
/// `into_color`, which turn the byte triples into Lab points; kmeans_colors'
/// `get_kmeans_hamerly`, whose random choices are fully driven by `seed`;
/// and kmeans_colors' `Sort::sort_indexed_colors`, which orders the
/// resulting centroids from darkest to lightest and attaches each cluster's
/// share of the pixels. Centroids come back converted to sRGB bytes, shares
/// and the run's score as raw `f32` bits; at most `k` clusters come back
/// (only populated centroids survive the sort), and each share is a count
/// divided by the buffer length, so its bits are those of a fraction in
/// [0, 1] (at most the bits of 1.0). The buffer must be non-empty whole
/// pixels: `from_component_slice` refuses a length that is not a multiple
/// of three and `sort_indexed_colors` refuses an empty buffer.
#[verifier::external_body]
fn cluster_seeded(pixels: &Vec<u8>, k: usize, max_iter: usize, converge: u16, seed: u64) -> (r: (
    Vec<ClusterColor>,
    u32,
))
    requires
        pixels@.len() % 3 == 0,
        pixels@.len() > 0,
        k >= 1,
    ensures
        r.0@ == clusters_of(pixels@, k, max_iter, converge, seed),
        r.1 == cluster_score_of(pixels@, k, max_iter, converge, seed),
        r.0@.len() <= k,
        forall|i: int| 0 <= i < r.0@.len() ==> (#[trigger] r.0@[i]).share_bits <= 0x3F80_0000u32,
{
    let lab: Vec<palette::Lab> = palette::cast::from_component_slice::<palette::Srgb<u8>>(
        pixels.as_slice(),
    ).iter().map(|x| x.into_format().into_color()).collect();
    let run = kmeans_colors::get_kmeans_hamerly(k, max_iter, converge.into(), false, &lab, seed);
    let sorted = palette::Lab::sort_indexed_colors(&run.centroids, &run.indices);
    let clusters = sorted.iter().map(|c| {
        let s: palette::Srgb = c.centroid.into_color();
        let b: palette::Srgb<u8> = s.into_format();
        ClusterColor { r: b.red, g: b.green, b: b.blue, share_bits: c.percentage.to_bits() }
    }).collect();
    (clusters, run.score.to_bits())
}

/// Score of the seeded run with this library's clustering parameters.
pub open spec fn spec_run_score(pixels: Seq<u8>, seed: u64) -> u32 {
    cluster_score_of(pixels, KMEANS_CLUSTERS, KMEANS_MAX_ITER, KMEANS_CONVERGE, seed)
}

/// The seed among `0..n` whose run scored lowest, earliest seed on ties.
pub open spec fn spec_best_seed(pixels: Seq<u8>, n: u64) -> u64
    decreases n,
{
    if n <= 1 {
        0
    } else {
        let prev = spec_best_seed(pixels, (n - 1) as u64);
        if spec_run_score(pixels, (n - 1) as u64) < spec_run_score(pixels, prev) {
            (n - 1) as u64
        } else {
            prev
        }
    }
}

/// The clusters the extractor works from: the best-scoring of the
/// `KMEANS_RUNS` seeded runs on this pixel buffer.
pub open spec fn spec_clusters(pixels: Seq<u8>) -> Seq<ClusterColor> {
    clusters_of(
        pixels,
        KMEANS_CLUSTERS,
        KMEANS_MAX_ITER,
        KMEANS_CONVERGE,
        spec_best_seed(pixels, KMEANS_RUNS),
    )
}

/// Whether a cluster's channel sum lies strictly inside the band.
pub open spec fn spec_in_band(c: ClusterColor, bright: u32, dark: u32) -> bool {
    dark < c.r + c.g + c.b < bright
}

/// The clusters inside the band, in their original order.
pub open spec fn spec_band_filter(s: Seq<ClusterColor>, bright: u32, dark: u32) -> Seq<
    ClusterColor,
>
    decreases s.len(),
{
    if s.len() == 0 {
        Seq::empty()
    } else {
        let rest = spec_band_filter(s.drop_last(), bright, dark);
        if spec_in_band(s.last(), bright, dark) {
            rest.push(s.last())
        } else {
            rest
        }
    }
}

/// The sequence with runs of consecutive equal colors collapsed to their
/// first element: index `i` survives iff `i == 0` or the color differs from
/// its predecessor.
pub open spec fn spec_dedup_consecutive(s: Seq<ClusterColor>) -> Seq<ClusterColor>
    decreases s.len(),
{
    if s.len() == 0 {
        Seq::empty()
    } else {
        let rest = spec_dedup_consecutive(s.drop_last());
        if s.len() >= 2 && same_rgb(s.last(), s[s.len() - 2]) {
            rest
        } else {
            rest.push(s.last())
        }
    }
}

/// Whether two clusters carry the same color bytes.
pub open spec fn same_rgb(a: ClusterColor, b: ClusterColor) -> bool {
    a.r == b.r && a.g == b.g && a.b == b.b
}

/// The sequence with every repeated color removed, keeping first
/// occurrences in order.
pub open spec fn spec_dedup_all(s: Seq<Color>) -> Seq<Color>
    decreases s.len(),
{
    if s.len() == 0 {
        Seq::empty()
    } else {
        let rest = spec_dedup_all(s.drop_last());
        if s.drop_last().contains(s.last()) {
            rest
        } else {
            rest.push(s.last())
        }
    }
}

/// Index of the first cluster among `s[..n]` with the largest share.
pub open spec fn spec_first_best_share(s: Seq<ClusterColor>, n: int) -> int
    decreases n,
{
    if n <= 1 {
        0
    } else {
        let prev = spec_first_best_share(s, n - 1);
        if s[n - 1].share_bits > s[prev].share_bits {
            n - 1
        } else {
            prev
        }
    }
}

/// An opaque color from a cluster's centroid bytes.
pub open spec fn spec_cluster_color(c: ClusterColor) -> Color {
    Color { r: c.r, g: c.g, b: c.b, a: 255 }
}

/// The gradient/palette candidates of a cluster list: the wider band's
/// survivors with consecutive duplicates removed.
pub open spec fn spec_gradient_candidates(clusters: Seq<ClusterColor>) -> Seq<ClusterColor> {
    spec_dedup_consecutive(spec_band_filter(clusters, GRADIENT_BRIGHT_LIMIT, GRADIENT_DARK_LIMIT))
}

/// The flat-color candidates of a cluster list: the narrower band's
/// survivors.
pub open spec fn spec_plain_candidates(clusters: Seq<ClusterColor>) -> Seq<ClusterColor> {
    spec_band_filter(clusters, PLAIN_BRIGHT_LIMIT, PLAIN_DARK_LIMIT)
}

/// Whether extraction succeeds on this cluster list: the flat band must
/// match at least one cluster and the gradient band must leave at least
/// two deduplicated candidates, since the pair is defined by a darkest and
/// a second-from-last candidate.
pub open spec fn spec_extract_ok(clusters: Seq<ClusterColor>) -> bool {
    &&& spec_plain_candidates(clusters).len() > 0
    &&& spec_gradient_candidates(clusters).len() >= 2
}

/// The gradient pair of a candidate list: from the darkest candidate to
/// the second-from-last (anti-outlier) bright candidate.
pub open spec fn spec_gradient_pair(grad_cands: Seq<ClusterColor>) -> (Color, Color) {
    (
        spec_cluster_color(grad_cands[0]),
        spec_cluster_color(grad_cands[grad_cands.len() - 2]),
    )
}

/// The background palette derived from a cluster list, when extraction
/// succeeds: the flat color is the highest-share flat-band candidate
/// (earliest on ties), the gradient runs from the darkest candidate to the
/// second-from-last (anti-outlier) bright candidate, and the palette is the
/// candidates with all duplicates removed.
pub open spec fn spec_extract(clusters: Seq<ClusterColor>) -> GradientColorsView {
    let plain_cands = spec_plain_candidates(clusters);
    let grad_cands = spec_gradient_candidates(clusters);
    let pair = spec_gradient_pair(grad_cands);
    GradientColorsView {
        plain: spec_cluster_color(plain_cands[spec_first_best_share(plain_cands, plain_cands.len() as int)]),
        gradient: Some(pair),
        custom_gradient: Some(pair),
        all_colors: spec_dedup_all(grad_cands.map_values(|c: ClusterColor| spec_cluster_color(c))),
    }
}

/// The best-scoring clusters over all `KMEANS_RUNS` seeds.
fn best_clusters(pixels: &Vec<u8>) -> (r: Vec<ClusterColor>)
    requires
        pixels@.len() % 3 == 0,
        pixels@.len() > 0,
    ensures
        r@ == spec_clusters(pixels@),
{
    let first = cluster_seeded(pixels, KMEANS_CLUSTERS, KMEANS_MAX_ITER, KMEANS_CONVERGE, 0);
    let mut best = first.0;
    let mut best_score = first.1;
    let mut seed: u64 = 1;
    while seed < KMEANS_RUNS
        invariant
            1 <= seed <= KMEANS_RUNS,
            pixels@.len() % 3 == 0,
            pixels@.len() > 0,
            best@ == clusters_of(
                pixels@,
                KMEANS_CLUSTERS,
                KMEANS_MAX_ITER,
                KMEANS_CONVERGE,
                spec_best_seed(pixels@, seed),
            ),
            best_score == spec_run_score(pixels@, spec_best_seed(pixels@, seed)),
        decreases KMEANS_RUNS - seed,
    {
        let run = cluster_seeded(pixels, KMEANS_CLUSTERS, KMEANS_MAX_ITER, KMEANS_CONVERGE, seed);
        if run.1 < best_score {
            best = run.0;
            best_score = run.1;
        }
        seed = seed + 1;
    }
    best
}

/// The clusters whose channel sum lies strictly inside the band, in order.
fn band_filter(s: &Vec<ClusterColor>, bright: u32, dark: u32) -> (r: Vec<ClusterColor>)
    ensures
        r@ == spec_band_filter(s@, bright, dark),
{
    let mut r: Vec<ClusterColor> = Vec::new();
    let n = s.len();
    let mut i: usize = 0;
    while i < n
        invariant
            i <= n,
            n == s@.len(),
            r@ == spec_band_filter(s@.take(i as int), bright, dark),
        decreases n - i,
    {
        let c = s[i];
        let sum = c.r as u32 + c.g as u32 + c.b as u32;
        if dark < sum && sum < bright {
            r.push(c);
        }
        proof {
            assert(s@.take(i + 1).drop_last() =~= s@.take(i as int));
            assert(s@.take(i + 1).last() == s@[i as int]);
        }
        i = i + 1;
    }
    proof {
        assert(s@.take(n as int) =~= s@);
    }
    r
}

/// Collapses runs of consecutive equal colors to their first element.
fn dedup_consecutive(s: &Vec<ClusterColor>) -> (r: Vec<ClusterColor>)
    ensures
        r@ == spec_dedup_consecutive(s@),
{
    let mut r: Vec<ClusterColor> = Vec::new();
    let n = s.len();
    let mut i: usize = 0;
    while i < n
        invariant
            i <= n,
            n == s@.len(),
            r@ == spec_dedup_consecutive(s@.take(i as int)),
        decreases n - i,
    {
        let c = s[i];
        if i == 0 || !(c.r == s[i - 1].r && c.g == s[i - 1].g && c.b == s[i - 1].b) {
            r.push(c);
        }
        proof {
            assert(s@.take(i + 1).drop_last() =~= s@.take(i as int));
            assert(s@.take(i + 1).last() == s@[i as int]);
            if i >= 1 {
                assert(s@.take(i + 1)[i - 1] == s@[i - 1]);
            }
        }
        i = i + 1;
    }
    proof {
        assert(s@.take(n as int) =~= s@);
    }
    r
}

/// Whether the vector holds this color.
fn vec_contains_color(v: &Vec<Color>, c: &Color) -> (r: bool)
    ensures
        r == v@.contains(*c),
{
    let n = v.len();
    let mut i: usize = 0;
    while i < n
        invariant
            i <= n,
            n == v@.len(),
            forall|j: int| 0 <= j < i ==> v@[j] != *c,
        decreases n - i,
    {
        if v[i] == *c {
            return true;
        }
        i = i + 1;
    }
    false
}

/// A deduplicated sequence holds exactly the elements of its source.
proof fn lemma_dedup_all_membership(s: Seq<Color>)
    ensures
        forall|c: Color| #[trigger] spec_dedup_all(s).contains(c) <==> s.contains(c),
    decreases s.len(),
{
    if s.len() > 0 {
        lemma_dedup_all_membership(s.drop_last());
        assert forall|c: Color| s.contains(c) implies #[trigger] spec_dedup_all(s).contains(
            c,
        ) by {
            if s.drop_last().contains(c) {
                assert(spec_dedup_all(s.drop_last()).contains(c));
                let j = choose|j: int|
                    0 <= j < spec_dedup_all(s.drop_last()).len() && spec_dedup_all(
                        s.drop_last(),
                    )[j] == c;
                if !(s.len() >= 1 && s.drop_last().contains(s.last())) {
                    assert(spec_dedup_all(s)[j] == c);
                } else {
                    assert(spec_dedup_all(s)[j] == c);
                }
            } else {
                let j = choose|j: int| 0 <= j < s.len() && s[j] == c;
                if j < s.len() - 1 {
                    assert(s.drop_last()[j] == c);
                    assert(s.drop_last().contains(c));
                }
                assert(j == s.len() - 1);
                assert(spec_dedup_all(s)[spec_dedup_all(s).len() - 1] == c);
            }
        }
        assert forall|c: Color| #[trigger] spec_dedup_all(s).contains(c) implies s.contains(
            c,
        ) by {
            let j = choose|j: int|
                0 <= j < spec_dedup_all(s).len() && spec_dedup_all(s)[j] == c;
            if j < spec_dedup_all(s.drop_last()).len() {
                assert(spec_dedup_all(s.drop_last()).contains(c));
                let i = choose|i: int| 0 <= i < s.drop_last().len() && s.drop_last()[i] == c;
                assert(s[i] == c);
            } else {
                assert(c == s.last());
            }
        }
    }
}

/// A deduplicated sequence has no duplicate entries.
proof fn lemma_dedup_all_no_duplicates(s: Seq<Color>)
    ensures
        spec_dedup_all(s).no_duplicates(),
    decreases s.len(),
{
    if s.len() > 0 {
        lemma_dedup_all_no_duplicates(s.drop_last());
        lemma_dedup_all_membership(s.drop_last());
        let rest = spec_dedup_all(s.drop_last());
        let d = spec_dedup_all(s);
        if !s.drop_last().contains(s.last()) {
            assert(d == rest.push(s.last()));
            assert(!rest.contains(s.last()));
            assert forall|i: int, j: int|
                0 <= i < d.len() && 0 <= j < d.len() && i != j implies d[i] != d[j] by {
                if i < rest.len() && j < rest.len() {
                    assert(d[i] == rest[i] && d[j] == rest[j]);
                } else if j == rest.len() {
                    assert(d[i] == rest[i] && d[j] == s.last());
                    if rest[i] == s.last() {
                        assert(rest.contains(s.last()));
                    }
                } else {
                    assert(d[j] == rest[j] && d[i] == s.last());
                    if rest[j] == s.last() {
                        assert(rest.contains(s.last()));
                    }
                }
            }
        }
    }
}

/// Keeps the first occurrence of each color, in order.
fn dedup_all(s: &Vec<Color>) -> (r: Vec<Color>)
    ensures
        r@ == spec_dedup_all(s@),
        r@.no_duplicates(),
{
    let mut r: Vec<Color> = Vec::new();
    let n = s.len();
    let mut i: usize = 0;
    while i < n
        invariant
            i <= n,
            n == s@.len(),
            r@ == spec_dedup_all(s@.take(i as int)),
        decreases n - i,
    {
        proof {
            lemma_dedup_all_membership(s@.take(i as int));
        }
        let c = s[i];
        if !vec_contains_color(&r, &c) {
            r.push(c);
        }
        proof {
            assert(s@.take(i + 1).drop_last() =~= s@.take(i as int));
            assert(s@.take(i + 1).last() == s@[i as int]);
        }
        i = i + 1;
    }
    proof {
        assert(s@.take(n as int) =~= s@);
        lemma_dedup_all_no_duplicates(s@);
    }
    r
}

/// Index of the first cluster with the largest share.
fn first_best_share(s: &Vec<ClusterColor>) -> (idx: usize)
    requires
        s@.len() > 0,
    ensures
        idx < s@.len(),
        idx == spec_first_best_share(s@, s@.len() as int),
{
    let n = s.len();
    let mut best: usize = 0;
    let mut i: usize = 1;
    while i < n
        invariant
            1 <= i <= n,
            n == s@.len(),
            best < i,
            best == spec_first_best_share(s@, i as int),
        decreases n - i,
    {
        if s[i].share_bits > s[best].share_bits {
            best = i;
        }
        i = i + 1;
    }
    best
}

/// An opaque color from a cluster's centroid bytes.
fn cluster_to_color(c: &ClusterColor) -> (r: Color)
    ensures
        r == spec_cluster_color(*c),
{
    Color::opaque(c.r, c.g, c.b)
}

/// Derives the card's background palette from the artwork's RGB pixels:
/// clusters them with every seed, keeps the best run, and applies the two
/// band-pass filters. Fails, instead of producing a palette, exactly when
/// the flat band matches nothing or the gradient band leaves fewer than
/// two deduplicated candidates (so no pair can be formed).
pub fn find_best_colors(pixels: &Vec<u8>) -> (r: Result<GradientColors, NoQualifyingColorError>)
    requires
        pixels@.len() % 3 == 0,
        pixels@.len() > 0,
    ensures
        r is Ok <==> spec_extract_ok(spec_clusters(pixels@)),
        r is Ok ==> r.unwrap()@ == spec_extract(spec_clusters(pixels@)),
{
    let clusters = best_clusters(pixels);
    let grad_band = band_filter(&clusters, GRADIENT_BRIGHT_LIMIT, GRADIENT_DARK_LIMIT);
    let grad_cands = dedup_consecutive(&grad_band);
    let plain_cands = band_filter(&clusters, PLAIN_BRIGHT_LIMIT, PLAIN_DARK_LIMIT);
    if plain_cands.len() == 0 || grad_cands.len() < 2 {
        return Err(NoQualifyingColorError);
    }
    let pi = first_best_share(&plain_cands);
    let plain = cluster_to_color(&plain_cands[pi]);
    let start = cluster_to_color(&grad_cands[0]);
    let end = cluster_to_color(&grad_cands[grad_cands.len() - 2]);

    let mut palette_colors: Vec<Color> = Vec::new();
    let n = grad_cands.len();
    let mut i: usize = 0;
    while i < n
        invariant
            i <= n,
            n == grad_cands@.len(),
            palette_colors@.len() == i,
            forall|j: int| 0 <= j < i ==> palette_colors@[j] == spec_cluster_color(
                grad_cands@[j],
            ),
        decreases n - i,
    {
        palette_colors.push(cluster_to_color(&grad_cands[i]));
        i = i + 1;
    }
    proof {
        assert(palette_colors@ =~= spec_gradient_candidates(spec_clusters(pixels@)).map_values(
            |c: ClusterColor| spec_cluster_color(c),
        ));
    }
    let all_colors = dedup_all(&palette_colors);
    let r = GradientColors {
        plain,
        gradient: Some((start, end)),
        custom_gradient: Some((start, end)),
        all_colors,
    };
    proof {
        assert(r@ =~= spec_extract(spec_clusters(pixels@)));
    }
    Ok(r)
}

/// Color extraction is deterministic: two extractions from the same pixel
/// buffer are bit-identical, both in whether they succeed and in every
/// color they produce.
pub proof fn law_extraction_deterministic(
    pixels: Seq<u8>,
    r1: GradientColorsView,
    r2: GradientColorsView,
)
    requires
        spec_extract_ok(spec_clusters(pixels)),
        r1 == spec_extract(spec_clusters(pixels)),
        r2 == spec_extract(spec_clusters(pixels)),
    ensures
        r1 == r2,
{
}

/// A successful extraction always carries a flat color, a full gradient
/// pair, and a candidate palette free of duplicate entries, and every
/// color it produces is fully opaque.
pub proof fn law_extraction_shape(clusters: Seq<ClusterColor>)
    requires
        spec_extract_ok(clusters),
    ensures
        spec_extract(clusters).gradient is Some,
        spec_extract(clusters).custom_gradient is Some,
        spec_extract(clusters).all_colors.no_duplicates(),
        spec_extract(clusters).plain.is_opaque(),
        spec_extract(clusters).gradient.unwrap().0.is_opaque(),
        spec_extract(clusters).gradient.unwrap().1.is_opaque(),
        forall|i: int|
            0 <= i < spec_extract(clusters).all_colors.len()
                ==> (#[trigger] spec_extract(clusters).all_colors[i]).is_opaque(),
{
    let mapped = spec_gradient_candidates(clusters).map_values(
        |c: ClusterColor| spec_cluster_color(c),
    );
    lemma_dedup_all_no_duplicates(mapped);
    lemma_dedup_all_membership(mapped);
    let palette = spec_extract(clusters).all_colors;
    assert forall|i: int| 0 <= i < palette.len() implies (#[trigger] palette[i]).is_opaque() by {
        assert(palette.contains(palette[i]));
        assert(mapped.contains(palette[i]));
        let j = choose|j: int| 0 <= j < mapped.len() && mapped[j] == palette[i];
        assert(mapped[j] == spec_cluster_color(spec_gradient_candidates(clusters)[j]));
    }
}

} // verus!
