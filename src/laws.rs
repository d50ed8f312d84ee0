//! Properties that relate several operations, proved over their contracts.
use vstd::prelude::*;
use crate::font::{
    right_taken, back_left, back_right, crop_keep, grow_steps, grown_hi, grown_lo, remeasured, size_is_current,
    Font,
};
use crate::shaping::{
    gap_ranges, placed_run, ShapedGlyph, gap_end, patched, patched_head, patched_scripts, ranges_ok, run_glyphs, run_start, FallbackRun,
};
use crate::plan::{
    adv_sum, advance_index, advances_nonneg, first_past, lemma_prefix_monotone, lemma_prefix_step,
    lemma_seg_split, lemma_seg_one, prefix_adv, seg_adv, GlyphPlan, RenderPlan,
};

verus! {

/// Setting a size twice in a row: once the first call's resize is recorded,
/// the second call asks for nothing, so neither the mark nor the x-heights
/// are measured again. A size that is already current asks for nothing at all.
pub proof fn set_size_is_idempotent(f: Font, size: u32, dpi: u16, ellipsis: RenderPlan, x_heights: (u32, u32))
    ensures
        size_is_current(remeasured(f, size, dpi, ellipsis, x_heights), size, dpi),
        remeasured(f, size, dpi, ellipsis, x_heights).ellipsis == ellipsis,
        remeasured(f, size, dpi, ellipsis, x_heights).x_heights == x_heights,
{
}

/// Splitting a plan whose width is the sum of its advances at glyph `index`,
/// with the width of the glyphs before it, leaves two plans whose widths are
/// again the sums of their advances.
pub proof fn split_off_keeps_widths(g: Seq<GlyphPlan>, index: int)
    requires
        0 <= index <= g.len(),
    ensures
        adv_sum(g.subrange(0, index)) == prefix_adv(g, index),
        adv_sum(g.subrange(index, g.len() as int)) + prefix_adv(g, index) == adv_sum(g),
{
    lemma_seg_split(g, 0, index, g.len() as int);
    assert(g.subrange(0, g.len() as int) =~= g);
}

proof fn lemma_first_past_skips(g: Seq<GlyphPlan>, a: int, i: int, k: int)
    requires
        advances_nonneg(g),
        0 <= k <= i <= g.len(),
        prefix_adv(g, i) == a,
    ensures
        first_past(g, a, k) == first_past(g, a, i),
    decreases i - k,
{
    if k < i {
        lemma_prefix_monotone(g, k + 1, i);
        lemma_first_past_skips(g, a, i, k + 1);
    }
}

proof fn lemma_first_past_level(g: Seq<GlyphPlan>, a: int, i: int)
    requires
        advances_nonneg(g),
        0 <= i <= g.len(),
        prefix_adv(g, i) == a,
    ensures
        i <= first_past(g, a, i) <= g.len(),
        prefix_adv(g, first_past(g, a, i)) == a,
        first_past(g, a, i) < g.len() ==> prefix_adv(g, first_past(g, a, i) + 1) > a,
    decreases g.len() - i,
{
    if i < g.len() {
        lemma_prefix_step(g, i);
        lemma_prefix_monotone(g, i, i + 1);
        if prefix_adv(g, i + 1) <= a {
            lemma_first_past_level(g, a, i + 1);
        }
    }
}

/// The glyph index at the total advance of the first `i` glyphs is `i` or,
/// past zero-width glyphs, a later index with the same total advance; it is
/// `i` itself whenever glyph `i` has a width.
pub proof fn index_advance_round_trip(g: Seq<GlyphPlan>, i: int)
    requires
        advances_nonneg(g),
        0 <= i <= g.len(),
    ensures
        ({
            let r = advance_index(g, prefix_adv(g, i));
            &&& i <= r <= g.len()
            &&& prefix_adv(g, r) == prefix_adv(g, i)
            &&& (i < g.len() && g[i].advance.x > 0 ==> r == i)
        }),
{
    let a = prefix_adv(g, i);
    lemma_first_past_skips(g, a, i, 0);
    lemma_first_past_level(g, a, i);
    if i < g.len() && g[i].advance.x > 0 {
        lemma_prefix_step(g, i);
    }
}

proof fn lemma_crop_keep_fits(g: Seq<GlyphPlan>, max_width: int, mark: int, c: int)
    ensures
        crop_keep(g, max_width, mark, c) <= c,
        crop_keep(g, max_width, mark, c) <= 0 || prefix_adv(g, crop_keep(g, max_width, mark, c)) + mark <= max_width,
    decreases c,
{
    if c > 0 && prefix_adv(g, c) + mark > max_width {
        lemma_crop_keep_fits(g, max_width, mark, c - 1);
    }
}

/// A right crop with a mark of at most one glyph leaves a plan within the
/// width, or the mark alone.
pub proof fn crop_right_fits(g: Seq<GlyphPlan>, max_width: int, mark: Seq<GlyphPlan>, mark_width: int)
    requires
        g.len() > 0,
        mark.len() <= 1,
    ensures
        ({
            let c = crop_keep(g, max_width, mark_width, g.len() - 1);
            &&& 0 <= c < g.len()
            &&& prefix_adv(g, c) + mark_width <= max_width || c + mark.len() <= 1
        }),
{
    lemma_crop_keep_fits(g, max_width, mark_width, g.len() - 1);
    let c = crop_keep(g, max_width, mark_width, g.len() - 1);
    lemma_crop_keep_nonneg(g, max_width, mark_width, g.len() - 1);
}

proof fn lemma_crop_keep_nonneg(g: Seq<GlyphPlan>, max_width: int, mark: int, c: int)
    requires
        c >= 0,
    ensures
        crop_keep(g, max_width, mark, c) >= 0,
    decreases c,
{
    if c > 0 && prefix_adv(g, c) + mark > max_width {
        lemma_crop_keep_nonneg(g, max_width, mark, c - 1);
    }
}

proof fn lemma_back_right(g: Seq<GlyphPlan>, lo: int, h: int, floor: int, extra: int, max_width: int)
    requires
        floor <= h,
    ensures
        floor <= back_right(g, lo, h, floor, extra, max_width) <= h,
        back_right(g, lo, h, floor, extra, max_width) == floor || seg_adv(
            g,
            lo,
            back_right(g, lo, h, floor, extra, max_width),
        ) + extra <= max_width,
    decreases h - floor,
{
    if h > floor && seg_adv(g, lo, h) + extra > max_width {
        lemma_back_right(g, lo, h - 1, floor, extra, max_width);
    }
}

proof fn lemma_back_left(g: Seq<GlyphPlan>, l: int, hi: int, ceil: int, extra: int, max_width: int)
    ensures
        l <= back_left(g, l, hi, ceil, extra, max_width),
        back_left(g, l, hi, ceil, extra, max_width) <= l || back_left(g, l, hi, ceil, extra, max_width) <= ceil,
        back_left(g, l, hi, ceil, extra, max_width) >= ceil || seg_adv(
            g,
            back_left(g, l, hi, ceil, extra, max_width),
            hi,
        ) + extra <= max_width,
    decreases ceil - l,
{
    if l < ceil && seg_adv(g, l, hi) + extra > max_width {
        lemma_back_left(g, l + 1, hi, ceil, extra, max_width);
    }
}

proof fn lemma_grow_fits(g: Seq<GlyphPlan>, index: int, max_width: int, m: int)
    requires
        0 <= index <= g.len(),
        0 <= m <= g.len(),
        seg_adv(g, grown_lo(index, g.len() as int, m), grown_hi(index, g.len() as int, m)) <= max_width,
    ensures
        m <= grow_steps(g, index, max_width, m) <= g.len(),
        seg_adv(
            g,
            grown_lo(index, g.len() as int, grow_steps(g, index, max_width, m)),
            grown_hi(index, g.len() as int, grow_steps(g, index, max_width, m)),
        ) <= max_width,
    decreases g.len() - m,
{
    if 0 <= m < g.len() && seg_adv(g, grown_lo(index, g.len() as int, m + 1), grown_hi(index, g.len() as int, m + 1))
        <= max_width {
        lemma_grow_fits(g, index, max_width, m + 1);
    }
}

/// When any one glyph fits `max_width` together with two marks, cropping
/// around an index yields a plan that fits: the width `crop_around` reports
/// for the window it keeps, marks included, is at most `max_width`.
pub proof fn crop_around_fits(g: Seq<GlyphPlan>, index: int, max_width: int, mark_width: int)
    requires
        advances_nonneg(g),
        0 <= index <= g.len(),
        adv_sum(g) > max_width,
        max_width >= 0,
        mark_width >= 0,
        forall|i: int| 0 <= i < g.len() ==> #[trigger] g[i].advance.x + 2 * mark_width <= max_width,
    ensures
        ({
            let n = g.len() as int;
            let ew = mark_width;
            let mw = max_width;
            let m = grow_steps(g, index, mw, 0);
            let lo = grown_lo(index, n, m);
            let hi = grown_hi(index, n, m);
            let right_cut = hi < n;
            let left_cut = lo > 0;
            let floor = if lo > 1 { lo } else if hi >= 1 { 1 } else { 0 };
            let h = if right_cut { back_right(g, lo, hi, floor, ew, mw) } else { n };
            let l = if left_cut {
                back_left(g, lo, h, if right_cut { h - 1 } else { n }, if right_cut { 2 * ew } else { ew }, mw)
            } else {
                0
            };
            seg_adv(g, l, h) + (if left_cut { ew } else { 0 }) + (if right_cut { ew } else { 0 }) <= mw
        }),
{
    let n = g.len() as int;
    let ew = mark_width;
    let mw = max_width;
    assert(g.subrange(index, index) =~= Seq::<GlyphPlan>::empty());
    assert(grown_lo(index, n, 0) == index && grown_hi(index, n, 0) == index);
    lemma_grow_fits(g, index, mw, 0);
    let m = grow_steps(g, index, mw, 0);
    let lo = grown_lo(index, n, m);
    let hi = grown_hi(index, n, m);
    assert(0 <= right_taken(m, index, n - index) <= n - index);
    assert(0 <= m - right_taken(m, index, n - index) <= index);
    let right_cut = hi < n;
    let left_cut = lo > 0;
    let floor = if lo > 1 { lo } else if hi >= 1 { 1 } else { 0 };
    if !right_cut && !left_cut {
        assert(g.subrange(0, n) =~= g);
    }
    let h = if right_cut { back_right(g, lo, hi, floor, ew, mw) } else { n };
    if right_cut {
        if lo == 0 {
            // hi >= 1: otherwise the window is empty at index 0 and glyph 0 fits alone.
            if hi == 0 {
                lemma_seg_one(g, 0);
                assert(grown_lo(index, n, 1) == 0 && grown_hi(index, n, 1) == 1);
                assert(g[0].advance.x <= mw);
                assert(grow_steps(g, index, mw, 0) == grow_steps(g, index, mw, 1));
                lemma_grow_fits(g, index, mw, 1);
            }
        }
        lemma_back_right(g, lo, hi, floor, ew, mw);
        if h == floor {
            if lo == 0 {
                lemma_seg_one(g, 0);
            } else {
                assert(g.subrange(lo, lo) =~= Seq::<GlyphPlan>::empty());
            }
        }
    }
    if left_cut {
        let ceil = if right_cut { h - 1 } else { n };
        let extra = if right_cut { 2 * ew } else { ew };
        let l = back_left(g, lo, h, ceil, extra, mw);
        lemma_back_left(g, lo, h, ceil, extra, mw);
        if l >= ceil {
            if right_cut {
                if l < h {
                    assert(l == h - 1);
                    lemma_seg_one(g, l);
                } else {
                    assert(g.subrange(l, h) =~= Seq::<GlyphPlan>::empty());
                }
            } else {
                assert(g.subrange(l, h) =~= Seq::<GlyphPlan>::empty());
            }
        }
    }
}

proof fn lemma_scripts_in_head(
    g: Seq<GlyphPlan>,
    r: Seq<(usize, usize)>,
    runs: Seq<FallbackRun>,
    k: int,
    key: usize,
)
    requires
        ranges_ok(r, g.len() as int),
        runs.len() == r.len(),
        0 <= k <= r.len(),
        patched_scripts(g, r, runs, k).contains_key(key),
    ensures
        exists|kk: int, i: int|
            0 <= kk < k && 0 <= i < runs[kk].glyphs@.len() && key == run_start(g, r, runs, kk) + i
                && key < patched_head(g, r, runs, k).len()
                && patched_head(g, r, runs, k)[key as int] == #[trigger] run_glyphs(g, r, runs, kk)[i]
                && runs[kk].script == Some(patched_scripts(g, r, runs, k)[key]),
    decreases k,
{
    let j = k - 1;
    if j > 0 {
        assert(r[j - 1].1 <= r[j].0);
    }
    assert(r[j].0 < r[j].1 <= g.len());
    let start = run_start(g, r, runs, j);
    let n = runs[j].glyphs@.len();
    let head = patched_head(g, r, runs, j);
    let next = patched_head(g, r, runs, k);
    assert(next == head + g.subrange(gap_end(r, j), r[j].0 as int) + run_glyphs(g, r, runs, j));
    if runs[j].script is Some && start <= key < start + n {
        let i = key - start;
        assert(next[key as int] == run_glyphs(g, r, runs, j)[i]);
    } else {
        lemma_scripts_in_head(g, r, runs, j, key);
        let (kk, i) = choose|kk: int, i: int|
            0 <= kk < j && 0 <= i < runs[kk].glyphs@.len() && key == run_start(g, r, runs, kk) + i
                && key < patched_head(g, r, runs, j).len()
                && patched_head(g, r, runs, j)[key as int] == #[trigger] run_glyphs(g, r, runs, kk)[i]
                && runs[kk].script == Some(patched_scripts(g, r, runs, j)[key]);
        assert(next[key as int] == head[key as int]);
        assert(patched_head(g, r, runs, k)[key as int] == run_glyphs(g, r, runs, kk)[i]);
    }
}

/// Every script entry of a plan built from a primary shaping and fallback runs
/// names a glyph that a fallback run supplied: the entry lies within the plan,
/// the glyph there is that run's, and the entry holds the run's script.
pub proof fn scripts_mark_fallback_glyphs(
    g: Seq<GlyphPlan>,
    r: Seq<(usize, usize)>,
    runs: Seq<FallbackRun>,
    key: usize,
)
    requires
        ranges_ok(r, g.len() as int),
        runs.len() == r.len(),
        patched_scripts(g, r, runs, r.len() as int).contains_key(key),
    ensures
        key < patched(g, r, runs).len(),
        exists|kk: int, i: int|
            0 <= kk < r.len() && 0 <= i < runs[kk].glyphs@.len()
                && patched(g, r, runs)[key as int] == #[trigger] run_glyphs(g, r, runs, kk)[i]
                && runs[kk].script == Some(patched_scripts(g, r, runs, r.len() as int)[key]),
{
    lemma_scripts_in_head(g, r, runs, r.len() as int, key);
    let (kk, i) = choose|kk: int, i: int|
        0 <= kk < r.len() && 0 <= i < runs[kk].glyphs@.len() && key == run_start(g, r, runs, kk) + i
            && key < patched_head(g, r, runs, r.len() as int).len()
            && patched_head(g, r, runs, r.len() as int)[key as int] == #[trigger] run_glyphs(g, r, runs, kk)[i]
            && runs[kk].script == Some(patched_scripts(g, r, runs, r.len() as int)[key]);
    assert(patched(g, r, runs)[key as int] == run_glyphs(g, r, runs, kk)[i]);
}

/// Clusters never decrease along the glyphs.
pub open spec fn clusters_sorted(g: Seq<GlyphPlan>) -> bool {
    forall|i: int, j: int| 0 <= i <= j < g.len() ==> #[trigger] g[i].cluster <= #[trigger] g[j].cluster
}

/// Clusters never decrease along the shaped glyphs.
pub open spec fn shaped_sorted(s: Seq<ShapedGlyph>) -> bool {
    forall|i: int, j: int| 0 <= i <= j < s.len() ==> #[trigger] s[i].cluster <= #[trigger] s[j].cluster
}

/// Where the text of gap `k` ends: at the cluster of the glyph after it, or at the end of the text.
pub open spec fn gap_limit(g: Seq<GlyphPlan>, r: Seq<(usize, usize)>, text_len: int, k: int) -> int {
    if r[k].1 < g.len() {
        g[r[k].1 as int].cluster as int
    } else {
        text_len
    }
}

/// Each run's clusters, counted from its gap's text, stay within that text.
pub open spec fn runs_within_gaps(g: Seq<GlyphPlan>, r: Seq<(usize, usize)>, runs: Seq<FallbackRun>, text_len: int) -> bool {
    forall|k: int, j: int|
        0 <= k < r.len() && 0 <= j < runs[k].glyphs@.len() ==> g[r[k].0 as int].cluster
            + #[trigger] runs[k].glyphs@[j].cluster <= gap_limit(g, r, text_len, k)
}

proof fn lemma_sorted_sub(g: Seq<GlyphPlan>, a: int, b: int)
    requires
        clusters_sorted(g),
        0 <= a <= b <= g.len(),
    ensures
        clusters_sorted(g.subrange(a, b)),
{
    assert forall|i: int, j: int| 0 <= i <= j < b - a implies #[trigger] g.subrange(a, b)[i].cluster
        <= #[trigger] g.subrange(a, b)[j].cluster by {
        assert(g[a + i].cluster <= g[a + j].cluster);
    }
}

proof fn lemma_sorted_join(x: Seq<GlyphPlan>, y: Seq<GlyphPlan>)
    requires
        clusters_sorted(x),
        clusters_sorted(y),
        x.len() == 0 || y.len() == 0 || x.last().cluster <= y[0].cluster,
    ensures
        clusters_sorted(x + y),
{
    let z = x + y;
    assert forall|i: int, j: int| 0 <= i <= j < z.len() implies #[trigger] z[i].cluster <= #[trigger] z[j].cluster by {
        if j < x.len() {
            assert(x[i].cluster <= x[j].cluster);
        } else if i >= x.len() {
            assert(y[i - x.len()].cluster <= y[j - x.len()].cluster);
        } else {
            assert(x[i].cluster <= x[x.len() - 1].cluster);
            assert(y[0].cluster <= y[j - x.len()].cluster);
        }
    }
}

proof fn lemma_sorted_prefix_bound(g: Seq<GlyphPlan>, a: int)
    requires
        clusters_sorted(g),
        0 <= a < g.len(),
    ensures
        forall|i: int| 0 <= i <= a ==> #[trigger] g[i].cluster <= g[a].cluster,
{
}

proof fn lemma_sorted_heads(
    g: Seq<GlyphPlan>,
    r: Seq<(usize, usize)>,
    runs: Seq<FallbackRun>,
    text_len: int,
    k: int,
)
    requires
        ranges_ok(r, g.len() as int),
        runs.len() == r.len(),
        clusters_sorted(g),
        forall|k: int| 0 <= k < runs.len() ==> shaped_sorted(#[trigger] runs[k].glyphs@),
        runs_within_gaps(g, r, runs, text_len),
        text_len <= usize::MAX,
        0 <= k <= r.len(),
    ensures
        clusters_sorted(patched_head(g, r, runs, k) + g.subrange(gap_end(r, k), g.len() as int)),
    decreases k,
{
    if k == 0 {
        assert(patched_head(g, r, runs, 0) + g.subrange(0, g.len() as int) =~= g);
    } else {
        let j = k - 1;
        lemma_sorted_heads(g, r, runs, text_len, j);
        if j > 0 {
            assert(r[j - 1].1 <= r[j].0);
        }
        assert(r[j].0 < r[j].1 <= g.len());
        let end = gap_end(r, j);
        let s = r[j].0 as int;
        let e = r[j].1 as int;
        let head = patched_head(g, r, runs, j);
        let old_seq = head + g.subrange(end, g.len() as int);
        let a = head + g.subrange(end, s);
        let run = run_glyphs(g, r, runs, j);
        let rest = g.subrange(e, g.len() as int);
        let base = g[s].cluster as int;
        assert(old_seq.subrange(0, a.len() as int) =~= a);
        assert(old_seq[a.len() as int] == g[s]);
        lemma_sorted_sub(old_seq, 0, a.len() as int);
        lemma_sorted_prefix_bound(old_seq, a.len() as int);
        lemma_sorted_sub(g, e, g.len() as int);
        assert forall|i: int| 0 <= i < run.len() implies #[trigger] run[i].cluster == base + runs[j].glyphs@[i].cluster
            && run[i].cluster <= gap_limit(g, r, text_len, j) by {
            assert(base + runs[j].glyphs@[i].cluster <= gap_limit(g, r, text_len, j));
        }
        assert(clusters_sorted(run)) by {
            assert forall|x: int, y: int| 0 <= x <= y < run.len() implies #[trigger] run[x].cluster
                <= #[trigger] run[y].cluster by {
                assert(runs[j].glyphs@[x].cluster <= runs[j].glyphs@[y].cluster);
            }
        }
        lemma_sorted_join(a, run);
        let ar = a + run;
        if rest.len() > 0 && ar.len() > 0 {
            if run.len() > 0 {
                assert(ar.last() == run.last());
            } else {
                assert(ar.last() == a.last());
                assert(old_seq[a.len() - 1].cluster <= old_seq[a.len() as int].cluster);
                lemma_sorted_sub(g, s, g.len() as int);
                assert(g[s].cluster <= g[e].cluster);
            }
            assert(rest[0] == g[e]);
        }
        lemma_sorted_join(ar, rest);
        assert(patched_head(g, r, runs, k) + g.subrange(gap_end(r, k), g.len() as int) =~= ar + rest);
    }
}

/// For left-to-right text, where the primary clusters never decrease and each
/// run's clusters never decrease and stay within its gap's text, the clusters
/// of the patched plan never decrease.
pub proof fn patched_clusters_sorted(g: Seq<GlyphPlan>, r: Seq<(usize, usize)>, runs: Seq<FallbackRun>, text_len: int)
    requires
        ranges_ok(r, g.len() as int),
        runs.len() == r.len(),
        clusters_sorted(g),
        forall|k: int| 0 <= k < runs.len() ==> shaped_sorted(#[trigger] runs[k].glyphs@),
        runs_within_gaps(g, r, runs, text_len),
        text_len <= usize::MAX,
    ensures
        clusters_sorted(patched(g, r, runs)),
{
    lemma_sorted_heads(g, r, runs, text_len, r.len() as int);
}

/// Byte `i` of `text` starts a character, or `i` is the end of the text: it is
/// not a UTF-8 continuation byte.
pub open spec fn starts_char(text: Seq<u8>, i: int) -> bool {
    0 <= i <= text.len() && (i == text.len() || !(0x80 <= text[i] < 0xC0))
}

/// Each gap's text runs forward: it ends no earlier than it starts.
pub open spec fn gap_texts_ordered(g: Seq<GlyphPlan>, r: Seq<(usize, usize)>, text_len: int) -> bool {
    forall|k: int| 0 <= k < r.len() ==> #[trigger] g[r[k].0 as int].cluster <= gap_limit(g, r, text_len, k)
}

/// Each run's clusters start characters of its gap's text.
pub open spec fn runs_start_chars(g: Seq<GlyphPlan>, r: Seq<(usize, usize)>, runs: Seq<FallbackRun>, text: Seq<u8>) -> bool {
    forall|k: int, j: int|
        0 <= k < r.len() && 0 <= j < runs[k].glyphs@.len() ==> starts_char(
            text.subrange(g[r[k].0 as int].cluster as int, gap_limit(g, r, text.len() as int, k)),
            #[trigger] runs[k].glyphs@[j].cluster as int,
        )
}

proof fn lemma_boundaries_in_heads(
    g: Seq<GlyphPlan>,
    r: Seq<(usize, usize)>,
    runs: Seq<FallbackRun>,
    text: Seq<u8>,
    k: int,
)
    requires
        ranges_ok(r, g.len() as int),
        runs.len() == r.len(),
        forall|i: int| 0 <= i < g.len() ==> starts_char(text, #[trigger] g[i].cluster as int),
        gap_texts_ordered(g, r, text.len() as int),
        runs_start_chars(g, r, runs, text),
        text.len() <= usize::MAX,
        0 <= k <= r.len(),
    ensures
        ({
            let cur = patched_head(g, r, runs, k) + g.subrange(gap_end(r, k), g.len() as int);
            forall|i: int| 0 <= i < cur.len() ==> starts_char(text, #[trigger] cur[i].cluster as int)
        }),
    decreases k,
{
    if k == 0 {
        assert(patched_head(g, r, runs, 0) + g.subrange(0, g.len() as int) =~= g);
    } else {
        let j = k - 1;
        lemma_boundaries_in_heads(g, r, runs, text, j);
        if j > 0 {
            assert(r[j - 1].1 <= r[j].0);
        }
        assert(r[j].0 < r[j].1 <= g.len());
        let end = gap_end(r, j);
        let s = r[j].0 as int;
        let e = r[j].1 as int;
        let head = patched_head(g, r, runs, j);
        let old_seq = head + g.subrange(end, g.len() as int);
        let run = run_glyphs(g, r, runs, j);
        let base = g[s].cluster as int;
        let limit = gap_limit(g, r, text.len() as int, j);
        assert(starts_char(text, base));
        if e < g.len() {
            assert(starts_char(text, g[e].cluster as int));
        }
        assert(g[r[j].0 as int].cluster <= gap_limit(g, r, text.len() as int, j));
        assert(base <= limit <= text.len());
        let cur = patched_head(g, r, runs, k) + g.subrange(gap_end(r, k), g.len() as int);
        assert(cur =~= head + g.subrange(end, s) + run + g.subrange(e, g.len() as int));
        assert forall|i: int| 0 <= i < cur.len() implies starts_char(text, #[trigger] cur[i].cluster as int) by {
            let hl = head.len() + (s - end);
            if i < hl {
                assert(cur[i] == old_seq[i]);
            } else if i < hl + run.len() {
                let c = runs[j].glyphs@[i - hl].cluster as int;
                assert(starts_char(text.subrange(base, limit), c));
                assert(cur[i].cluster == base + c);
                if base + c < limit {
                    assert(text.subrange(base, limit)[c] == text[base + c]);
                }
            } else {
                assert(cur[i] == old_seq[i - run.len() + (e - s)]);
            }
        }
    }
}

/// When the primary clusters start characters of the text and each run's
/// clusters start characters of its gap's text, every cluster of the patched
/// plan starts a character of the text (or is its end).
pub proof fn patched_clusters_start_chars(g: Seq<GlyphPlan>, r: Seq<(usize, usize)>, runs: Seq<FallbackRun>, text: Seq<u8>)
    requires
        ranges_ok(r, g.len() as int),
        runs.len() == r.len(),
        forall|i: int| 0 <= i < g.len() ==> starts_char(text, #[trigger] g[i].cluster as int),
        gap_texts_ordered(g, r, text.len() as int),
        runs_start_chars(g, r, runs, text),
        text.len() <= usize::MAX,
    ensures
        forall|i: int| 0 <= i < patched(g, r, runs).len() ==> starts_char(text, #[trigger] patched(g, r, runs)[i].cluster as int),
{
    lemma_boundaries_in_heads(g, r, runs, text, r.len() as int);
}

proof fn lemma_gaps_in_order(primary: Seq<ShapedGlyph>, r: Seq<(usize, usize)>)
    requires
        gap_ranges(primary, r),
    ensures
        ranges_ok(r, primary.len() as int),
{
    assert forall|k: int| 0 <= k < r.len() - 1 implies #[trigger] r[k].1 <= r[k + 1].0 by {
        assert(r[k].1 < r[k + 1].0);
    }
}

/// The gap texts of a shaping, in the shaper's own clusters: each run's
/// clusters never decrease and, counted from the gap's first cluster, stay
/// within the gap's text.
pub open spec fn runs_fit_gap_texts(primary: Seq<ShapedGlyph>, r: Seq<(usize, usize)>, runs: Seq<FallbackRun>, text_len: int) -> bool {
    &&& forall|k: int| 0 <= k < runs.len() ==> shaped_sorted(#[trigger] runs[k].glyphs@)
    &&& forall|k: int, j: int|
        0 <= k < r.len() && 0 <= j < runs[k].glyphs@.len() ==> primary[r[k].0 as int].cluster
            + #[trigger] runs[k].glyphs@[j].cluster <= (if r[k].1 < primary.len() {
            primary[r[k].1 as int].cluster as int
        } else {
            text_len
        })
}

/// For a left-to-right shaping of a text of `text_len` bytes, whose primary
/// clusters never decrease and whose fallback runs stay ordered within their
/// gaps' text, the clusters of the plan that `shape_plan` (and `Font::plan`
/// without a width) returns never decrease.
pub proof fn shaped_plan_clusters_sorted(primary: Seq<ShapedGlyph>, r: Seq<(usize, usize)>, runs: Seq<FallbackRun>, text_len: int)
    requires
        gap_ranges(primary, r),
        runs.len() == r.len(),
        shaped_sorted(primary),
        runs_fit_gap_texts(primary, r, runs, text_len),
        text_len <= usize::MAX,
    ensures
        clusters_sorted(patched(placed_run(primary, 0), r, runs)),
{
    let g = placed_run(primary, 0);
    lemma_gaps_in_order(primary, r);
    assert forall|i: int, j: int| 0 <= i <= j < g.len() implies #[trigger] g[i].cluster <= #[trigger] g[j].cluster by {
        assert(primary[i].cluster <= primary[j].cluster);
    }
    assert forall|k: int, j: int|
        0 <= k < r.len() && 0 <= j < runs[k].glyphs@.len() implies g[r[k].0 as int].cluster
            + #[trigger] runs[k].glyphs@[j].cluster <= gap_limit(g, r, text_len, k) by {
        assert(r[k].0 < r[k].1 <= primary.len());
    }
    patched_clusters_sorted(g, r, runs, text_len);
}

/// For a shaping of `text` whose primary clusters start characters of the
/// text, whose gaps' text runs forward, and whose fallback runs' clusters
/// start characters of their gap's text, every cluster of the plan that
/// `shape_plan` (and `Font::plan` without a width) returns starts a character
/// of the text or is its end.
pub proof fn shaped_plan_clusters_start_chars(primary: Seq<ShapedGlyph>, r: Seq<(usize, usize)>, runs: Seq<FallbackRun>, text: Seq<u8>)
    requires
        gap_ranges(primary, r),
        runs.len() == r.len(),
        forall|i: int| 0 <= i < primary.len() ==> starts_char(text, #[trigger] primary[i].cluster as int),
        gap_texts_ordered(placed_run(primary, 0), r, text.len() as int),
        runs_start_chars(placed_run(primary, 0), r, runs, text),
        text.len() <= usize::MAX,
    ensures
        forall|i: int| 0 <= i < patched(placed_run(primary, 0), r, runs).len() ==> starts_char(
            text,
            #[trigger] patched(placed_run(primary, 0), r, runs)[i].cluster as int,
        ),
{
    let g = placed_run(primary, 0);
    lemma_gaps_in_order(primary, r);
    assert forall|i: int| 0 <= i < g.len() implies starts_char(text, #[trigger] g[i].cluster as int) by {
        assert(starts_char(text, primary[i].cluster as int));
    }
    patched_clusters_start_chars(g, r, runs, text);
}

/// Every script entry of the plan that `shape_plan` (and `Font::plan` without
/// a width) builds from a shaping lies within the plan and marks a glyph that a
/// fallback run supplied, with that run's script.
pub proof fn shaped_plan_scripts_mark_fallback_glyphs(
    primary: Seq<ShapedGlyph>,
    r: Seq<(usize, usize)>,
    runs: Seq<FallbackRun>,
    key: usize,
)
    requires
        gap_ranges(primary, r),
        runs.len() == r.len(),
        patched_scripts(placed_run(primary, 0), r, runs, r.len() as int).contains_key(key),
    ensures
        key < patched(placed_run(primary, 0), r, runs).len(),
        exists|kk: int, i: int|
            0 <= kk < r.len() && 0 <= i < runs[kk].glyphs@.len()
                && patched(placed_run(primary, 0), r, runs)[key as int]
                == #[trigger] run_glyphs(placed_run(primary, 0), r, runs, kk)[i]
                && runs[kk].script == Some(patched_scripts(placed_run(primary, 0), r, runs, r.len() as int)[key]),
{
    lemma_gaps_in_order(primary, r);
    scripts_mark_fallback_glyphs(placed_run(primary, 0), r, runs, key);
}

} // verus!
