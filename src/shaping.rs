//! Turning shaper output into render plans, with fallback runs spliced over
//! the glyphs that the primary face lacks.
use vstd::prelude::*;
use crate::plan::{adv_sum, advances_nonneg, scripts_insert, total_width, GlyphPlan, Point, RenderPlan};
use fnv::FnvHashMap;

verus! {

/// One glyph as the shaper reports it, positions in 26.6 fixed point.
#[derive(Debug, Clone, Copy, PartialEq, Eq, Structural)]
pub struct ShapedGlyph {
    pub codepoint: u32,
    /// Byte offset into the shaped text.
    pub cluster: u32,
    pub x_advance: i32,
    pub y_advance: i32,
    pub x_offset: i32,
    pub y_offset: i32,
}

/// A 26.6 value in whole pixels, rounded toward negative infinity.
pub open spec fn px(v: int) -> int {
    v / 64
}

/// The plan glyph for a shaped glyph whose text starts at byte `base`: 26.6
/// values truncated to pixels, the vertical offset flipped to point down.
pub open spec fn placed(s: ShapedGlyph, base: int) -> GlyphPlan {
    GlyphPlan {
        codepoint: s.codepoint,
        cluster: (base + s.cluster) as usize,
        offset: Point { x: px(s.x_offset as int) as i32, y: px(-(s.y_offset as int)) as i32 },
        advance: Point { x: px(s.x_advance as int) as i32, y: px(s.y_advance as int) as i32 },
    }
}

pub open spec fn placed_run(run: Seq<ShapedGlyph>, base: int) -> Seq<GlyphPlan> {
    Seq::new(run.len(), |i: int| placed(run[i], base))
}

fn to_px(v: i64) -> (r: i32)
    requires
        -0x80000000 <= v <= 0x80000000,
    ensures
        r as int == px(v as int),
{
    let q: i64 = v >> 6;
    assert(q * 64 <= v && v < q * 64 + 64 && -0x2000000 <= q <= 0x2000000) by (bit_vector)
        requires
            q == v >> 6,
            -0x80000000 <= v <= 0x80000000,
    ;
    assert(q as int == (v as int) / 64) by (nonlinear_arith)
        requires
            q * 64 <= v < q * 64 + 64,
    ;
    q as i32
}

/// Places a shaped glyph whose text starts at byte `base`.
pub fn place(s: &ShapedGlyph, base: usize) -> (r: GlyphPlan)
    requires
        base + s.cluster <= usize::MAX,
    ensures
        r == placed(*s, base as int),
{
    GlyphPlan {
        codepoint: s.codepoint,
        cluster: base + s.cluster as usize,
        offset: Point { x: to_px(s.x_offset as i64), y: to_px(-(s.y_offset as i64)) },
        advance: Point { x: to_px(s.x_advance as i64), y: to_px(s.y_advance as i64) },
    }
}

/// `r` lists, in order, the maximal runs of glyphs that the face lacks (glyph id 0),
/// as half-open index ranges.
pub open spec fn gap_ranges(sh: Seq<ShapedGlyph>, r: Seq<(usize, usize)>) -> bool {
    &&& forall|k: int| 0 <= k < r.len() ==> #[trigger] r[k].0 < r[k].1 <= sh.len()
    &&& forall|k: int| 0 <= k < r.len() - 1 ==> #[trigger] r[k].1 < r[k + 1].0
    &&& forall|k: int, i: int|
        0 <= k < r.len() && #[trigger] r[k].0 <= i < r[k].1 ==> #[trigger] sh[i].codepoint == 0
    &&& forall|i: int|
        0 <= i < sh.len() && #[trigger] sh[i].codepoint == 0 ==> exists|k: int|
            0 <= k < r.len() && #[trigger] r[k].0 <= i < r[k].1
}

/// The runs of glyphs, in order, that the primary face could not supply.
pub fn missing_ranges(primary: &Vec<ShapedGlyph>) -> (r: Vec<(usize, usize)>)
    ensures
        gap_ranges(primary@, r@),
{
    let mut r: Vec<(usize, usize)> = Vec::new();
    let n = primary.len();
    let mut i: usize = 0;
    while i < n
        invariant
            n == primary@.len(),
            i <= n,
            gap_ranges(primary@.subrange(0, i as int), r@),
        decreases n - i,
    {
        let ghost pre = primary@.subrange(0, i as int);
        let ghost post = primary@.subrange(0, i + 1);
        let ghost old_r = r@;
        if primary[i].codepoint == 0 {
            let mut extended = false;
            if r.len() > 0 {
                let last = r.len() - 1;
                let (start, end) = r[last];
                if end == i {
                    r.pop();
                    r.push((start, i + 1));
                    extended = true;
                    assert forall|j: int| 0 <= j < post.len() && post[j].codepoint == 0 implies
                        exists|k: int| 0 <= k < r@.len() && #[trigger] r@[k].0 <= j < r@[k].1 by {
                        if j < i {
                            assert(pre[j].codepoint == 0);
                            let k = choose|k: int| 0 <= k < old_r.len() && #[trigger] old_r[k].0 <= j < old_r[k].1;
                            assert(r@[k].0 <= j < r@[k].1);
                        } else {
                            assert(r@[last as int].0 <= j < r@[last as int].1);
                        }
                    }
                }
            }
            if !extended {
                r.push((i, i + 1));
                assert forall|j: int| 0 <= j < post.len() && post[j].codepoint == 0 implies
                    exists|k: int| 0 <= k < r@.len() && #[trigger] r@[k].0 <= j < r@[k].1 by {
                    if j < i {
                        assert(pre[j].codepoint == 0);
                        let k = choose|k: int| 0 <= k < old_r.len() && #[trigger] old_r[k].0 <= j < old_r[k].1;
                        assert(r@[k].0 <= j < r@[k].1);
                    } else {
                        assert(r@[old_r.len() as int].0 <= j < r@[old_r.len() as int].1);
                    }
                }
            }
        } else {
            assert forall|j: int| 0 <= j < post.len() && post[j].codepoint == 0 implies
                exists|k: int| 0 <= k < r@.len() && #[trigger] r@[k].0 <= j < r@[k].1 by {
                assert(pre[j].codepoint == 0);
            }
        }
        i += 1;
    }
    assert(primary@.subrange(0, n as int) =~= primary@);
    r
}

/// The text under gap `k`: from the cluster of its first glyph to the cluster
/// of the glyph after it, or to the end of the text.
pub open spec fn gap_text(primary: Seq<ShapedGlyph>, r: Seq<(usize, usize)>, text_len: int, k: int) -> (usize, usize) {
    (
        primary[r[k].0 as int].cluster as usize,
        if r[k].1 < primary.len() { primary[r[k].1 as int].cluster as usize } else { text_len as usize },
    )
}

/// The byte range of the text under each gap, to be shaped with a fallback face.
pub fn gap_text_ranges(primary: &Vec<ShapedGlyph>, ranges: &Vec<(usize, usize)>, text_len: usize) -> (r: Vec<(usize, usize)>)
    requires
        forall|k: int| 0 <= k < ranges@.len() ==> #[trigger] ranges@[k].0 < ranges@[k].1 <= primary@.len(),
    ensures
        r@.len() == ranges@.len(),
        forall|k: int| 0 <= k < ranges@.len() ==> #[trigger] r@[k] == gap_text(primary@, ranges@, text_len as int, k),
{
    let mut r: Vec<(usize, usize)> = Vec::new();
    let mut k: usize = 0;
    while k < ranges.len()
        invariant
            k <= ranges@.len(),
            forall|k: int| 0 <= k < ranges@.len() ==> #[trigger] ranges@[k].0 < ranges@[k].1 <= primary@.len(),
            r@.len() == k,
            forall|j: int| 0 <= j < k ==> #[trigger] r@[j] == gap_text(primary@, ranges@, text_len as int, j),
        decreases ranges.len() - k,
    {
        let (s, e) = ranges[k];
        assert(ranges@[k as int].0 < ranges@[k as int].1 <= primary@.len());
        let start = primary[s].cluster as usize;
        let end = if e < primary.len() { primary[e].cluster as usize } else { text_len };
        r.push((start, end));
        k += 1;
    }
    r
}

/// A gap of the primary shaping, re-shaped with the fallback face of `script`.
/// Its clusters count from the start of the gap's text. A gap whose fallback
/// face could not be opened keeps the primary glyphs and has no script.
#[derive(Debug, Clone)]
pub struct FallbackRun {
    pub script: Option<u32>,
    pub glyphs: Vec<ShapedGlyph>,
}

/// Script entries `start..start + n` for a run shaped under `script`; none without one.
pub open spec fn run_entries(start: int, n: int, script: Option<u32>) -> Map<usize, u32> {
    Map::new(|j: usize| script is Some && start <= j < start + n, |j: usize| script->0)
}

/// Index ranges that are non-empty, within `len`, in order and not overlapping.
pub open spec fn ranges_ok(r: Seq<(usize, usize)>, len: int) -> bool {
    &&& forall|k: int| 0 <= k < r.len() ==> #[trigger] r[k].0 < r[k].1 <= len
    &&& forall|k: int| 0 <= k < r.len() - 1 ==> #[trigger] r[k].1 <= r[k + 1].0
}

/// Where the text after the `k`-th gap resumes (0 before the first gap).
pub open spec fn gap_end(r: Seq<(usize, usize)>, k: int) -> int {
    if k <= 0 {
        0
    } else {
        r[k - 1].1 as int
    }
}

/// The glyphs of the run that replaces gap `k`, clusters made absolute.
pub open spec fn run_glyphs(g: Seq<GlyphPlan>, r: Seq<(usize, usize)>, runs: Seq<FallbackRun>, k: int) -> Seq<GlyphPlan> {
    placed_run(runs[k].glyphs@, g[r[k].0 as int].cluster as int)
}

/// Everything up to the end of gap `k - 1`, the first `k` gaps replaced by their runs.
pub open spec fn patched_head(
    g: Seq<GlyphPlan>,
    r: Seq<(usize, usize)>,
    runs: Seq<FallbackRun>,
    k: int,
) -> Seq<GlyphPlan>
    decreases k,
{
    if k <= 0 {
        Seq::empty()
    } else {
        patched_head(g, r, runs, k - 1) + g.subrange(gap_end(r, k - 1), r[k - 1].0 as int)
            + run_glyphs(g, r, runs, k - 1)
    }
}

/// `g` with every gap of `r` replaced by its run.
pub open spec fn patched(g: Seq<GlyphPlan>, r: Seq<(usize, usize)>, runs: Seq<FallbackRun>) -> Seq<GlyphPlan> {
    patched_head(g, r, runs, r.len() as int) + g.subrange(gap_end(r, r.len() as int), g.len() as int)
}

/// Index in the patched glyphs where the run of gap `k` begins.
pub open spec fn run_start(g: Seq<GlyphPlan>, r: Seq<(usize, usize)>, runs: Seq<FallbackRun>, k: int) -> int {
    patched_head(g, r, runs, k).len() + r[k].0 - gap_end(r, k)
}

/// The script entries after the first `k` gaps are replaced: each glyph of a
/// run is keyed by its index in the patched glyphs.
pub open spec fn patched_scripts(
    g: Seq<GlyphPlan>,
    r: Seq<(usize, usize)>,
    runs: Seq<FallbackRun>,
    k: int,
) -> Map<usize, u32>
    decreases k,
{
    if k <= 0 {
        Map::empty()
    } else {
        let start = run_start(g, r, runs, k - 1);
        let n = runs[k - 1].glyphs@.len();
        patched_scripts(g, r, runs, k - 1).union_prefer_right(run_entries(start, n as int, runs[k - 1].script))
    }
}

/// Clusters of every run glyph, made absolute, fit in `usize`.
pub open spec fn run_clusters_fit(primary: Seq<ShapedGlyph>, r: Seq<(usize, usize)>, runs: Seq<FallbackRun>) -> bool {
    forall|k: int, j: int|
        0 <= k < r.len() && 0 <= j < runs[k].glyphs@.len() ==> primary[r[k].0 as int].cluster
            + #[trigger] runs[k].glyphs@[j].cluster <= usize::MAX
}

pub open spec fn shaped_nonneg(s: Seq<ShapedGlyph>) -> bool {
    forall|i: int| 0 <= i < s.len() ==> #[trigger] s[i].x_advance >= 0
}

proof fn lemma_placed_run_nonneg(run: Seq<ShapedGlyph>, base: int)
    requires
        shaped_nonneg(run),
    ensures
        advances_nonneg(placed_run(run, base)),
{
    assert forall|i: int| 0 <= i < placed_run(run, base).len() implies
        #[trigger] placed_run(run, base)[i].advance.x >= 0 by {
        assert(run[i].x_advance >= 0);
    }
}

/// The plan glyphs of a whole primary shaping, clusters as the shaper gave them.
fn place_all(primary: &Vec<ShapedGlyph>) -> (r: Vec<GlyphPlan>)
    ensures
        r@ == placed_run(primary@, 0),
{
    let mut r: Vec<GlyphPlan> = Vec::new();
    let mut i: usize = 0;
    while i < primary.len()
        invariant
            i <= primary@.len(),
            r@ == placed_run(primary@.subrange(0, i as int), 0),
        decreases primary.len() - i,
    {
        r.push(place(&primary[i], 0));
        i += 1;
        assert(r@ =~= placed_run(primary@.subrange(0, i as int), 0));
    }
    assert(primary@.subrange(0, i as int) =~= primary@);
    r
}

/// Replaces each gap of `ranges` in `glyphs` by its fallback run and records
/// the run's script, if it has one, under every index the run now occupies.
fn patch(
    glyphs: &mut Vec<GlyphPlan>,
    scripts: &mut FnvHashMap<usize, u32>,
    ranges: &Vec<(usize, usize)>,
    runs: &Vec<FallbackRun>,
)
    requires
        old(scripts)@ == Map::<usize, u32>::empty(),
        ranges_ok(ranges@, old(glyphs)@.len() as int),
        runs@.len() == ranges@.len(),
        forall|k: int, j: int|
            0 <= k < ranges@.len() && 0 <= j < runs@[k].glyphs@.len() ==> old(
                glyphs,
            )@[ranges@[k].0 as int].cluster + #[trigger] runs@[k].glyphs@[j].cluster <= usize::MAX,
        advances_nonneg(old(glyphs)@),
        forall|k: int| 0 <= k < runs@.len() ==> shaped_nonneg(#[trigger] runs@[k].glyphs@),
    ensures
        final(glyphs)@ == patched(old(glyphs)@, ranges@, runs@),
        final(scripts)@ == patched_scripts(old(glyphs)@, ranges@, runs@, ranges@.len() as int),
        advances_nonneg(final(glyphs)@),
        forall|key: usize| final(scripts)@.contains_key(key) ==> key < final(glyphs)@.len(),
{
    let ghost g = glyphs@;
    let ghost r = ranges@;
    // `done` glyphs are final; the text from `pos` on is the primary shaping,
    // shifted by `done - pos` from where the first pass put it.
    let mut done: usize = 0;
    let mut pos: usize = 0;
    let mut k: usize = 0;
    while k < ranges.len()
        invariant
            ranges_ok(r, g.len() as int),
            r == ranges@,
            runs@.len() == r.len(),
            forall|k: int, j: int|
                0 <= k < r.len() && 0 <= j < runs@[k].glyphs@.len() ==> g[r[k].0 as int].cluster
                    + #[trigger] runs@[k].glyphs@[j].cluster <= usize::MAX,
            advances_nonneg(g),
            forall|k: int| 0 <= k < runs@.len() ==> shaped_nonneg(#[trigger] runs@[k].glyphs@),
            k <= r.len(),
            pos as int == gap_end(r, k as int),
            pos <= g.len(),
            done as int == patched_head(g, r, runs@, k as int).len(),
            glyphs@ == patched_head(g, r, runs@, k as int) + g.subrange(pos as int, g.len() as int),
            scripts@ == patched_scripts(g, r, runs@, k as int),
            forall|key: usize| scripts@.contains_key(key) ==> key < done,
            advances_nonneg(glyphs@),
        decreases r.len() - k,
    {
        let (s, e) = ranges[k];
        assert(r[k as int].0 < r[k as int].1 <= g.len());
        if k > 0 {
            assert(r[k - 1].1 <= r[k as int].0);
        }
        let ghost head = patched_head(g, r, runs@, k as int);
        let ghost prev_scripts = scripts@;
        let cur_len = glyphs.len();
        assert(cur_len == done + (g.len() - pos));
        let start = done + (s - pos);
        let end = done + (e - pos);
        assert(glyphs@[start as int] == g[s as int]);
        let base = glyphs[start].cluster;
        let run = &runs[k];
        let mut tail = glyphs.split_off(end);
        glyphs.truncate(start);
        assert(tail@ =~= g.subrange(e as int, g.len() as int));
        assert(glyphs@ =~= head + g.subrange(pos as int, s as int));
        let ghost mid = glyphs@;
        let n = run.glyphs.len();
        let mut i: usize = 0;
        while i < n
            invariant
                n == run.glyphs@.len(),
                i <= n,
                start == mid.len(),
                s < g.len(),
                base == g[s as int].cluster,
                forall|j: int| 0 <= j < n ==> base + #[trigger] run.glyphs@[j].cluster <= usize::MAX,
                shaped_nonneg(run.glyphs@),
                advances_nonneg(mid),
                glyphs@ == mid + placed_run(run.glyphs@.subrange(0, i as int), base as int),
                scripts@ == prev_scripts.union_prefer_right(run_entries(start as int, i as int, run.script)),
            decreases n - i,
        {
            assert(base + run.glyphs@[i as int].cluster <= usize::MAX);
            let at = glyphs.len();
            assert(at == start + i);
            glyphs.push(place(&run.glyphs[i], base));
            if let Some(script) = run.script {
                scripts_insert(scripts, at, script);
            }
            i += 1;
            assert(glyphs@ =~= mid + placed_run(run.glyphs@.subrange(0, i as int), base as int));
            assert(scripts@ =~= prev_scripts.union_prefer_right(run_entries(start as int, i as int, run.script)));
            proof {
                lemma_placed_run_nonneg(run.glyphs@.subrange(0, i as int), base as int);
            }
        }
        assert(run.glyphs@.subrange(0, n as int) =~= run.glyphs@);
        let placed_len = glyphs.len();
        assert(placed_len == start + n);
        glyphs.append(&mut tail);
        proof {
            lemma_placed_run_nonneg(run.glyphs@, base as int);
            assert(patched_head(g, r, runs@, k + 1) =~= head + g.subrange(pos as int, s as int)
                + run_glyphs(g, r, runs@, k as int));
            assert(glyphs@ =~= patched_head(g, r, runs@, k + 1) + g.subrange(e as int, g.len() as int));
            assert(run_start(g, r, runs@, k as int) == start);
            assert(scripts@ =~= patched_scripts(g, r, runs@, k + 1));
        }
        done = placed_len;
        pos = e;
        k += 1;
    }
    assert(glyphs@ =~= patched(g, r, runs@));
}

/// The plan of a text from its primary shaping and the fallback runs of its gaps.
///
/// `ranges` are the gaps of `primary` (see `missing_ranges`) and `runs[k]` is the
/// text of gap `k` shaped with the fallback face of `runs[k].script`. Each gap's
/// glyphs are replaced by the run's, the run's clusters are made absolute by the
/// byte offset of the gap's first glyph, and each replacing glyph's index is
/// recorded with the run's script (runs without a script record nothing).
pub fn shape_plan(primary: &Vec<ShapedGlyph>, ranges: &Vec<(usize, usize)>, runs: &Vec<FallbackRun>) -> (r: RenderPlan)
    requires
        gap_ranges(primary@, ranges@),
        runs@.len() == ranges@.len(),
        run_clusters_fit(primary@, ranges@, runs@),
        shaped_nonneg(primary@),
        forall|k: int| 0 <= k < runs@.len() ==> shaped_nonneg(#[trigger] runs@[k].glyphs@),
        adv_sum(patched(placed_run(primary@, 0), ranges@, runs@)) <= u32::MAX,
    ensures
        r.glyphs@ == patched(placed_run(primary@, 0), ranges@, runs@),
        r.scripts@ == patched_scripts(placed_run(primary@, 0), ranges@, runs@, ranges@.len() as int),
        r.wf(),
{
    let mut glyphs = place_all(primary);
    let mut scripts: FnvHashMap<usize, u32> = FnvHashMap::default();
    proof {
        lemma_placed_run_nonneg(primary@, 0);
        assert forall|k: int, j: int|
            0 <= k < ranges@.len() && 0 <= j < runs@[k].glyphs@.len() implies glyphs@[ranges@[k].0 as int].cluster
                + #[trigger] runs@[k].glyphs@[j].cluster <= usize::MAX by {
            assert(ranges@[k].0 < ranges@[k].1 <= primary@.len());
            assert(primary@[ranges@[k].0 as int].cluster + runs@[k].glyphs@[j].cluster <= usize::MAX);
        }
        assert forall|k: int| 0 <= k < ranges@.len() - 1 implies #[trigger] ranges@[k].1 <= ranges@[k + 1].0 by {
            assert(ranges@[k].1 < ranges@[k + 1].0);
        }
    }
    patch(&mut glyphs, &mut scripts, ranges, runs);
    let width = total_width(&glyphs);
    RenderPlan { width, scripts, glyphs }
}

} // verus!
