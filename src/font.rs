//! A font at one size: its truncation mark and metrics, and the plan
//! operations that depend on them.
use vstd::prelude::*;
use crate::plan::{
    adv_sum, advances_nonneg, lemma_adv_sum_concat, lemma_prefix_monotone, lemma_prefix_step,
    prefix_adv, shift_scripts, shifted_scripts, seg_adv, lemma_seg_split, lemma_seg_one,
    lemma_seg_bounds, GlyphPlan, RenderPlan,
};
use crate::shaping::{
    gap_ranges, patched, patched_scripts, placed_run, run_clusters_fit, shape_plan, shaped_nonneg,
    FallbackRun, ShapedGlyph,
};

verus! {

/// What a font knows of itself once its face is open: the size it is set to,
/// whether its shaper font exists yet, the plan of "…" at that size, the
/// lowercase and uppercase x-heights, and the glyph of U+0020.
#[derive(Debug)]
pub struct Font {
    pub size: u32,
    pub dpi: u16,
    /// The shaper font has been created; it is created by the first resize.
    pub sized: bool,
    /// Truncation mark.
    pub ellipsis: RenderPlan,
    /// Lowercase and uppercase x-heights.
    pub x_heights: (u32, u32),
    pub space_codepoint: u32,
}

/// Setting this size and resolution changes nothing.
pub open spec fn size_is_current(f: Font, size: u32, dpi: u16) -> bool {
    f.sized && f.size == size && f.dpi == dpi
}

/// The font once the face has been resized to `size` and `dpi` and the
/// size-dependent values remeasured.
pub open spec fn remeasured(f: Font, size: u32, dpi: u16, ellipsis: RenderPlan, x_heights: (u32, u32)) -> Font {
    Font { size, dpi, sized: true, ellipsis, x_heights, ..f }
}

/// Glyphs kept by a right crop, trying `c` glyphs first and then fewer: the
/// most whose advances and a mark of width `mark` fit `max_width`, or none.
pub open spec fn crop_keep(g: Seq<GlyphPlan>, max_width: int, mark: int, c: int) -> int
    decreases c,
{
    if c > 0 && prefix_adv(g, c) + mark > max_width {
        crop_keep(g, max_width, mark, c - 1)
    } else {
        c
    }
}

/// Walking back from glyph `i`, the first glyph boundary whose prefix fits `max_width` (0 at the latest).
pub open spec fn fit_end(g: Seq<GlyphPlan>, max_width: int, i: int) -> int
    decreases i,
{
    if i > 0 && prefix_adv(g, i) > max_width {
        fit_end(g, max_width, i - 1)
    } else {
        i
    }
}

/// Walking back from glyph `i`, the first glyph that is a space (0 at the latest).
pub open spec fn space_back(g: Seq<GlyphPlan>, space: u32, i: int) -> int
    decreases i,
{
    if i > 0 && g[i].codepoint != space {
        space_back(g, space, i - 1)
    } else {
        i
    }
}

/// Where a line of `g` breaks within `max_width`: at the last space before
/// the last fitting glyph boundary, or at that boundary if no space precedes it.
/// The last glyph is always left for the next line.
pub open spec fn cut_index(g: Seq<GlyphPlan>, space: u32, max_width: int) -> int {
    let j = fit_end(g, max_width, g.len() - 1);
    let i = space_back(g, space, j);
    if i == 0 {
        j
    } else {
        i
    }
}

/// Glyphs taken right of the pivot after `m` steps that alternate right, left,
/// right, ..., going on from one side once the other (`left` or `right` glyphs
/// long) is used up.
pub open spec fn right_taken(m: int, left: int, right: int) -> int {
    let both = if left < right { left } else { right };
    if m <= 2 * both {
        (m + 1) / 2
    } else if right > left {
        m - left
    } else {
        right
    }
}

/// First glyph of the window grown `m` steps around `index`.
pub open spec fn grown_lo(index: int, len: int, m: int) -> int {
    index - (m - right_taken(m, index, len - index))
}

/// End (exclusive) of the window grown `m` steps around `index`.
pub open spec fn grown_hi(index: int, len: int, m: int) -> int {
    index + right_taken(m, index, len - index)
}

/// Steps, counting on from `m`, for which the window around `index` still fits `max_width`.
pub open spec fn grow_steps(g: Seq<GlyphPlan>, index: int, max_width: int, m: int) -> int
    decreases g.len() - m,
{
    if 0 <= m < g.len() && seg_adv(g, grown_lo(index, g.len() as int, m + 1), grown_hi(index, g.len() as int, m + 1))
        <= max_width {
        grow_steps(g, index, max_width, m + 1)
    } else {
        m
    }
}

/// End of the window `lo..h` once glyphs leave its right side while it and
/// `extra` overflow `max_width`, never going below `floor`.
pub open spec fn back_right(g: Seq<GlyphPlan>, lo: int, h: int, floor: int, extra: int, max_width: int) -> int
    decreases h - floor,
{
    if h > floor && seg_adv(g, lo, h) + extra > max_width {
        back_right(g, lo, h - 1, floor, extra, max_width)
    } else {
        h
    }
}

/// Start of the window `l..hi` once glyphs leave its left side while it and
/// `extra` overflow `max_width`, never going past `ceil`.
pub open spec fn back_left(g: Seq<GlyphPlan>, l: int, hi: int, ceil: int, extra: int, max_width: int) -> int
    decreases ceil - l,
{
    if l < ceil && seg_adv(g, l, hi) + extra > max_width {
        back_left(g, l + 1, hi, ceil, extra, max_width)
    } else {
        l
    }
}

proof fn lemma_right_taken_step(t: int, left: int, right: int)
    requires
        0 <= left,
        0 <= right,
        0 <= t < left + right,
    ensures
        0 <= right_taken(t, left, right) <= right,
        0 <= t - right_taken(t, left, right) <= left,
        ({
            let rt = right_taken(t, left, right);
            if rt < right && (t % 2 == 0 || t - rt == left) {
                right_taken(t + 1, left, right) == rt + 1
            } else {
                &&& right_taken(t + 1, left, right) == rt
                &&& t - rt < left
            }
        }),
{
}

proof fn lemma_right_taken_bounds(t: int, left: int, right: int)
    requires
        0 <= left,
        0 <= right,
        0 <= t <= left + right,
    ensures
        0 <= right_taken(t, left, right) <= right,
        0 <= t - right_taken(t, left, right) <= left,
        t == left + right ==> right_taken(t, left, right) == right,
{
}

/// A window of glyphs `l..h` of `g` framed by marks on the chosen sides adds up.
proof fn lemma_framed(mark: Seq<GlyphPlan>, g: Seq<GlyphPlan>, l: int, h: int, left: bool, right: bool)
    requires
        advances_nonneg(mark),
        advances_nonneg(g),
        0 <= l <= h <= g.len(),
    ensures
        ({
            let framed = (if left { mark } else { Seq::empty() }) + g.subrange(l, h) + (if right { mark } else { Seq::empty() });
            &&& adv_sum(framed) == seg_adv(g, l, h) + (if left { adv_sum(mark) } else { 0 }) + (if right { adv_sum(mark) } else { 0 })
            &&& advances_nonneg(framed)
            &&& framed.len() == h - l + (if left { mark.len() } else { 0 }) + (if right { mark.len() } else { 0 })
        }),
{
    let a: Seq<GlyphPlan> = if left { mark } else { Seq::empty() };
    let b: Seq<GlyphPlan> = if right { mark } else { Seq::empty() };
    let w = g.subrange(l, h);
    lemma_adv_sum_concat(a, w);
    lemma_adv_sum_concat(a + w, b);
    let framed = a + w + b;
    assert forall|i: int| 0 <= i < framed.len() implies #[trigger] framed[i].advance.x >= 0 by {
        if i < a.len() {
            assert(framed[i] == a[i]);
        } else if i < a.len() + w.len() {
            assert(framed[i] == g[l + i - a.len()]);
        } else {
            assert(framed[i] == b[i - a.len() - w.len()]);
        }
    }
}

proof fn lemma_grow_unfold(g: Seq<GlyphPlan>, index: int, max_width: int, m: int)
    requires
        0 <= m < g.len(),
    ensures
        seg_adv(g, grown_lo(index, g.len() as int, m + 1), grown_hi(index, g.len() as int, m + 1)) <= max_width
            ==> grow_steps(g, index, max_width, m) == grow_steps(g, index, max_width, m + 1),
        seg_adv(g, grown_lo(index, g.len() as int, m + 1), grown_hi(index, g.len() as int, m + 1)) > max_width
            ==> grow_steps(g, index, max_width, m) == m,
{
}

/// Grows the window around `index` while it fits (see `grow_steps`); returns
/// its first glyph, its end and its width.
fn grow_window(plan: &RenderPlan, index: usize, max_width: u32) -> (r: (usize, usize, u32))
    requires
        plan.wf(),
        index <= plan.glyphs@.len(),
        plan.width > max_width,
    ensures
        ({
            let g = plan.glyphs@;
            let n = g.len() as int;
            let m = grow_steps(g, index as int, max_width as int, 0);
            &&& r.0 as int == grown_lo(index as int, n, m)
            &&& r.1 as int == grown_hi(index as int, n, m)
            &&& 0 <= r.0 <= index <= r.1 <= n
            &&& r.2 == seg_adv(g, r.0 as int, r.1 as int)
            &&& r.2 <= max_width
        }),
{
    let ghost g = plan.glyphs@;
    let ghost mw = max_width as int;
    let n = plan.glyphs.len();
    proof {
        assert(g.subrange(index as int, index as int) =~= Seq::<GlyphPlan>::empty());
    }
    let mut width: u32 = 0;
    let mut t: usize = 0;
    let mut lo: usize = index;
    let mut hi: usize = index;
    loop
        invariant
            g == plan.glyphs@,
            mw == max_width as int,
            n == g.len(),
            advances_nonneg(g),
            plan.width == adv_sum(g),
            plan.width > max_width,
            index <= n,
            t <= n,
            lo as int == grown_lo(index as int, n as int, t as int),
            hi as int == grown_hi(index as int, n as int, t as int),
            0 <= lo <= index <= hi <= n,
            width == seg_adv(g, lo as int, hi as int),
            width <= max_width,
            grow_steps(g, index as int, mw, 0) == grow_steps(g, index as int, mw, t as int),
        ensures
            lo as int == grown_lo(index as int, n as int, t as int),
            hi as int == grown_hi(index as int, n as int, t as int),
            0 <= lo <= index <= hi <= n,
            width == seg_adv(g, lo as int, hi as int),
            width <= max_width,
            t as int == grow_steps(g, index as int, mw, 0),
        decreases n - t,
    {
        proof {
            lemma_right_taken_bounds(t as int, index as int, n - index);
            if t == n {
                assert(g.subrange(0, n as int) =~= g);
                assert(false);
            }
            lemma_right_taken_step(t as int, index as int, n - index);
            lemma_grow_unfold(g, index as int, mw, t as int);
        }
        if hi < n && (t % 2 == 0 || lo == 0) {
            proof {
                lemma_seg_split(g, lo as int, hi as int, hi + 1);
                lemma_seg_one(g, hi as int);
                lemma_seg_bounds(g, lo as int, hi + 1);
                assert(grown_lo(index as int, n as int, t + 1) == lo);
                assert(grown_hi(index as int, n as int, t + 1) == hi + 1);
            }
            let next = width + plan.glyphs[hi].advance.x as u32;
            assert(next == seg_adv(g, grown_lo(index as int, n as int, t + 1), grown_hi(index as int, n as int, t + 1)));
            if next > max_width {
                assert(grow_steps(g, index as int, mw, t as int) == t);
                break;
            }
            assert(grow_steps(g, index as int, mw, t as int) == grow_steps(g, index as int, mw, t + 1));
            width = next;
            hi += 1;
        } else {
            proof {
                lemma_seg_split(g, lo - 1, lo as int, hi as int);
                lemma_seg_one(g, lo - 1);
                lemma_seg_bounds(g, lo - 1, hi as int);
                assert(grown_lo(index as int, n as int, t + 1) == lo - 1);
                assert(grown_hi(index as int, n as int, t + 1) == hi);
            }
            let next = width + plan.glyphs[lo - 1].advance.x as u32;
            assert(next == seg_adv(g, grown_lo(index as int, n as int, t + 1), grown_hi(index as int, n as int, t + 1)));
            if next > max_width {
                assert(grow_steps(g, index as int, mw, t as int) == t);
                break;
            }
            assert(grow_steps(g, index as int, mw, t as int) == grow_steps(g, index as int, mw, t + 1));
            width = next;
            lo -= 1;
        }
        t += 1;
    }
    (lo, hi, width)
}

/// Moves the end of the window `lo..hi` left while it and `extra` overflow
/// `max_width`, down to `floor` at most (see `back_right`); returns the end and
/// the width with `extra`.
fn back_off_right(glyphs: &Vec<GlyphPlan>, lo: usize, hi: usize, floor: usize, width: u32, extra: u32, max_width: u32) -> (r: (usize, u32))
    requires
        advances_nonneg(glyphs@),
        lo <= floor <= hi <= glyphs@.len(),
        width == seg_adv(glyphs@, lo as int, hi as int) + extra,
    ensures
        r.0 as int == back_right(glyphs@, lo as int, hi as int, floor as int, extra as int, max_width as int),
        floor <= r.0 <= hi,
        r.1 == seg_adv(glyphs@, lo as int, r.0 as int) + extra,
{
    let ghost g = glyphs@;
    let mut h: usize = hi;
    let mut w: u32 = width;
    while w > max_width && h > floor
        invariant
            g == glyphs@,
            advances_nonneg(g),
            lo <= floor <= h <= hi <= g.len(),
            w == seg_adv(g, lo as int, h as int) + extra,
            back_right(g, lo as int, hi as int, floor as int, extra as int, max_width as int)
                == back_right(g, lo as int, h as int, floor as int, extra as int, max_width as int),
        decreases h,
    {
        proof {
            lemma_seg_split(g, lo as int, h - 1, h as int);
            lemma_seg_one(g, h - 1);
            lemma_seg_bounds(g, lo as int, h - 1);
        }
        w = w - glyphs[h - 1].advance.x as u32;
        h -= 1;
    }
    (h, w)
}

/// Moves the start of the window `lo..hi` right while it and `extra` overflow
/// `max_width`, up to `ceil` at most (see `back_left`); returns the start and
/// the width with `extra`.
fn back_off_left(glyphs: &Vec<GlyphPlan>, lo: usize, hi: usize, ceil: usize, width: u32, extra: u32, max_width: u32) -> (r: (usize, u32))
    requires
        advances_nonneg(glyphs@),
        lo <= hi <= glyphs@.len(),
        ceil <= hi,
        width == seg_adv(glyphs@, lo as int, hi as int) + extra,
    ensures
        r.0 as int == back_left(glyphs@, lo as int, hi as int, ceil as int, extra as int, max_width as int),
        lo <= r.0 <= hi,
        r.1 == seg_adv(glyphs@, r.0 as int, hi as int) + extra,
{
    let ghost g = glyphs@;
    let mut l: usize = lo;
    let mut w: u32 = width;
    while w > max_width && l < ceil
        invariant
            g == glyphs@,
            advances_nonneg(g),
            lo <= l <= hi <= g.len(),
            ceil <= hi,
            w == seg_adv(g, l as int, hi as int) + extra,
            back_left(g, lo as int, hi as int, ceil as int, extra as int, max_width as int)
                == back_left(g, l as int, hi as int, ceil as int, extra as int, max_width as int),
        decreases ceil - l,
    {
        proof {
            lemma_seg_split(g, l as int, l + 1, hi as int);
            lemma_seg_one(g, l as int);
            lemma_seg_bounds(g, l + 1, hi as int);
        }
        w = w - glyphs[l].advance.x as u32;
        l += 1;
    }
    (l, w)
}

impl Font {
    /// A font whose face is open but whose size is not set yet.
    pub fn new(space_codepoint: u32) -> (r: Font)
        ensures
            r.size == 0,
            r.dpi == 0,
            !r.sized,
            r.ellipsis.glyphs@.len() == 0,
            r.ellipsis.wf(),
            r.x_heights == (0u32, 0u32),
            r.space_codepoint == space_codepoint,
    {
        Font {
            size: 0,
            dpi: 0,
            sized: false,
            ellipsis: RenderPlan::new(),
            x_heights: (0, 0),
            space_codepoint,
        }
    }

    /// Whether setting this size (26.6 points) and resolution asks for work:
    /// resizing the face and remeasuring, after which `remeasure` records the
    /// result. Nothing changes here, so a font whose resize fails keeps its
    /// old size; a size that is already current asks for nothing.
    pub fn set_size(&self, size: u32, dpi: u16) -> (r: bool)
        ensures
            r == !size_is_current(*self, size, dpi),
    {
        !(self.sized && self.size == size && self.dpi == dpi)
    }

    /// Records a resize that succeeded: the new size and resolution, the plan
    /// of "…" and the x-heights measured at it.
    pub fn remeasure(&mut self, size: u32, dpi: u16, ellipsis: RenderPlan, x_heights: (u32, u32))
        ensures
            *final(self) == remeasured(*old(self), size, dpi, ellipsis, x_heights),
    {
        self.size = size;
        self.dpi = dpi;
        self.sized = true;
        self.ellipsis = ellipsis;
        self.x_heights = x_heights;
    }

    /// Appends the glyphs of the truncation mark.
    fn push_mark(&self, glyphs: &mut Vec<GlyphPlan>)
        ensures
            final(glyphs)@ == old(glyphs)@ + self.ellipsis.glyphs@,
    {
        let mut i: usize = 0;
        let ghost start = glyphs@;
        while i < self.ellipsis.glyphs.len()
            invariant
                i <= self.ellipsis.glyphs@.len(),
                glyphs@ == start + self.ellipsis.glyphs@.subrange(0, i as int),
            decreases self.ellipsis.glyphs.len() - i,
        {
            glyphs.push(self.ellipsis.glyphs[i]);
            i += 1;
            assert(glyphs@ =~= start + self.ellipsis.glyphs@.subrange(0, i as int));
        }
        assert(self.ellipsis.glyphs@.subrange(0, i as int) =~= self.ellipsis.glyphs@);
    }

    /// Truncates the plan on the right to `max_width`, ending it with the mark.
    /// A plan that fits is left alone. Otherwise at least one glyph goes, then
    /// more until the rest and the mark fit or nothing is left; script entries
    /// of the removed glyphs go with them.
    pub fn crop_right(&self, plan: &mut RenderPlan, max_width: u32)
        requires
            old(plan).wf(),
            self.ellipsis.wf(),
            old(plan).width + self.ellipsis.width <= u32::MAX,
        ensures
            old(plan).width <= max_width ==> *final(plan) == *old(plan),
            old(plan).width > max_width ==> {
                let c = crop_keep(old(plan).glyphs@, max_width as int, self.ellipsis.width as int,
                    old(plan).glyphs@.len() - 1);
                &&& final(plan).glyphs@ == old(plan).glyphs@.subrange(0, c) + self.ellipsis.glyphs@
                &&& final(plan).width == prefix_adv(old(plan).glyphs@, c) + self.ellipsis.width
                &&& final(plan).scripts@ == shifted_scripts(old(plan).scripts@, 0, c, 0)
            },
            final(plan).wf(),
    {
        if plan.width <= max_width {
            return;
        }
        let ghost g = plan.glyphs@;
        let ghost mark = self.ellipsis.width as int;
        // At least the last glyph goes; then one more while the rest and the mark overflow.
        let mut c: usize = plan.glyphs.len() - 1;
        proof {
            lemma_prefix_step(g, c as int);
            lemma_prefix_monotone(g, c as int, g.len() as int);
            assert(g.subrange(0, g.len() as int) =~= g);
        }
        let mut width: u32 = plan.width + self.ellipsis.width - plan.glyphs[c].advance.x as u32;
        while c > 0 && width > max_width
            invariant
                g == plan.glyphs@,
                advances_nonneg(g),
                c < g.len(),
                mark == self.ellipsis.width,
                width == prefix_adv(g, c as int) + mark,
                crop_keep(g, max_width as int, mark, g.len() - 1) == crop_keep(g, max_width as int, mark, c as int),
            decreases c,
        {
            c -= 1;
            proof {
                lemma_prefix_step(g, c as int);
                lemma_prefix_monotone(g, c as int, c + 1);
            }
            width = width - plan.glyphs[c].advance.x as u32;
        }
        plan.glyphs.truncate(c);
        plan.width = width;
        assert(c as int == crop_keep(g, max_width as int, mark, g.len() - 1));
        plan.scripts = shift_scripts(&plan.scripts, 0, c, 0);
        self.push_mark(&mut plan.glyphs);
        proof {
            lemma_adv_sum_concat(g.subrange(0, c as int), self.ellipsis.glyphs@);
        }
    }

    /// The plan of a text from its primary shaping, the gaps in it and their
    /// fallback runs (see `shape_plan`), cropped on the right to `max_width` if given.
    pub fn plan(
        &self,
        primary: &Vec<ShapedGlyph>,
        ranges: &Vec<(usize, usize)>,
        runs: &Vec<FallbackRun>,
        max_width: Option<u32>,
    ) -> (r: RenderPlan)
        requires
            gap_ranges(primary@, ranges@),
            runs@.len() == ranges@.len(),
            run_clusters_fit(primary@, ranges@, runs@),
            shaped_nonneg(primary@),
            forall|k: int| 0 <= k < runs@.len() ==> shaped_nonneg(#[trigger] runs@[k].glyphs@),
            adv_sum(patched(placed_run(primary@, 0), ranges@, runs@)) + self.ellipsis.width
                <= u32::MAX,
            self.ellipsis.wf(),
        ensures
            ({
                let full = patched(placed_run(primary@, 0), ranges@, runs@);
                let scripts = patched_scripts(placed_run(primary@, 0), ranges@, runs@, ranges@.len() as int);
                if max_width is None || adv_sum(full) <= max_width->0 {
                    r.glyphs@ == full && r.scripts@ == scripts
                } else {
                    let c = crop_keep(full, max_width->0 as int, self.ellipsis.width as int, full.len() - 1);
                    &&& r.glyphs@ == full.subrange(0, c) + self.ellipsis.glyphs@
                    &&& r.scripts@ == shifted_scripts(scripts, 0, c, 0)
                }
            }),
            r.wf(),
    {
        let mut plan = shape_plan(primary, ranges, runs);
        if let Some(mw) = max_width {
            self.crop_right(&mut plan, mw);
        }
        plan
    }

    /// Truncates the plan to `max_width` around glyph `index`. A window grows
    /// from `index` one glyph at a time, right first and then alternating,
    /// while it fits. Each side that still has glyphs outside the window gets
    /// the mark, and the window shrinks on that side (right first) until it and
    /// the marks fit. Script entries outside the window go; when the left side
    /// is cut, the rest are renumbered from just after the left mark. Returns
    /// the index the window starts at, or 0 if nothing was cut on the left.
    /// When not even the glyph at `index` fits, the window stays empty:
    /// at index 0 the plan becomes the mark alone.
    pub fn crop_around(&self, plan: &mut RenderPlan, index: usize, max_width: u32) -> (r: usize)
        requires
            old(plan).wf(),
            self.ellipsis.wf(),
            index <= old(plan).glyphs@.len(),
            old(plan).width + 2 * self.ellipsis.width <= u32::MAX,
        ensures
            old(plan).width <= max_width ==> *final(plan) == *old(plan) && r == 0,
            old(plan).width > max_width ==> ({
                let g = old(plan).glyphs@;
                let n = g.len() as int;
                let mark = self.ellipsis.glyphs@;
                let ew = self.ellipsis.width as int;
                let mw = max_width as int;
                let m = grow_steps(g, index as int, mw, 0);
                let lo = grown_lo(index as int, n, m);
                let hi = grown_hi(index as int, n, m);
                let right_cut = hi < n;
                let left_cut = lo > 0;
                let floor = if lo > 1 { lo } else if hi >= 1 { 1 } else { 0 };
                let h = if right_cut { back_right(g, lo, hi, floor, ew, mw) } else { n };
                let l = if left_cut {
                    back_left(g, lo, h, if right_cut { h - 1 } else { n }, if right_cut { 2 * ew } else { ew }, mw)
                } else {
                    0
                };
                &&& final(plan).glyphs@ == (if left_cut { mark } else { Seq::empty() }) + g.subrange(l, h) + (
                if right_cut {
                    mark
                } else {
                    Seq::empty()
                })
                &&& final(plan).width == seg_adv(g, l, h) + (if left_cut { ew } else { 0 }) + (if right_cut { ew } else { 0 })
                &&& final(plan).scripts@ == (if left_cut {
                    shifted_scripts(old(plan).scripts@, l, h, 1)
                } else {
                    shifted_scripts(old(plan).scripts@, 0, h, 0)
                })
                &&& r == l
            }),
            self.ellipsis.glyphs@.len() > 0 ==> final(plan).wf(),
    {
        if plan.width <= max_width {
            return 0;
        }
        let ghost g = plan.glyphs@;
        let ghost ew = self.ellipsis.width as int;
        let ghost mw = max_width as int;
        let n = plan.glyphs.len();
        let (lo, hi, grown) = grow_window(plan, index, max_width);
        proof {
            lemma_seg_bounds(g, lo as int, hi as int);
        }
        let right_cut = hi < n;
        let left_cut = lo > 0;
        let mut h: usize = hi;
        let mut width: u32 = grown;
        if right_cut {
            // The right side keeps at least the first glyph of the window, if it grew at all.
            let floor: usize = if lo > 1 { lo } else if hi >= 1 { 1 } else { 0 };
            let (h1, w1) = back_off_right(&plan.glyphs, lo, hi, floor, grown + self.ellipsis.width, self.ellipsis.width, max_width);
            h = h1;
            width = w1;
        }
        let mut l: usize = 0;
        if left_cut {
            let extra: u32 = if right_cut { 2 * self.ellipsis.width } else { self.ellipsis.width };
            let ceil: usize = if right_cut { h - 1 } else { n };
            proof {
                lemma_seg_bounds(g, lo as int, h as int);
            }
            let (l1, w1) = back_off_left(&plan.glyphs, lo, h, ceil, width + self.ellipsis.width, extra, max_width);
            l = l1;
            width = w1;
        }
        let mut kept: Vec<GlyphPlan> = Vec::new();
        if left_cut {
            self.push_mark(&mut kept);
        }
        let ghost before = kept@;
        let mut i: usize = l;
        while i < h
            invariant
                g == plan.glyphs@,
                h <= g.len(),
                l <= i <= h,
                kept@ == before + g.subrange(l as int, i as int),
            decreases h - i,
        {
            kept.push(plan.glyphs[i]);
            i += 1;
            assert(kept@ =~= before + g.subrange(l as int, i as int));
        }
        if right_cut {
            self.push_mark(&mut kept);
        }
        plan.glyphs = kept;
        proof {
            lemma_framed(self.ellipsis.glyphs@, g, l as int, h as int, left_cut, right_cut);
        }
        if left_cut {
            plan.scripts = shift_scripts(&plan.scripts, l, h, 1);
        } else {
            plan.scripts = shift_scripts(&plan.scripts, 0, h, 0);
        }
        plan.width = width;
        l
    }

    /// Finds where to break the plan into a line of at most `max_width`: the
    /// glyph index of the break and the width before it (see `cut_index`).
    pub fn cut_point(&self, plan: &RenderPlan, max_width: u32) -> (r: (usize, u32))
        requires
            plan.wf(),
            plan.glyphs@.len() > 0,
        ensures
            r.0 == cut_index(plan.glyphs@, self.space_codepoint, max_width as int),
            r.1 == prefix_adv(plan.glyphs@, r.0 as int),
    {
        let ghost g = plan.glyphs@;
        let mut i: usize = plan.glyphs.len() - 1;
        proof {
            lemma_prefix_step(g, i as int);
            lemma_prefix_monotone(g, i as int, g.len() as int);
            assert(g.subrange(0, g.len() as int) =~= g);
        }
        let mut width: u32 = plan.width - plan.glyphs[i].advance.x as u32;
        while i > 0 && width > max_width
            invariant
                g == plan.glyphs@,
                advances_nonneg(g),
                i < g.len(),
                width == prefix_adv(g, i as int),
                fit_end(g, max_width as int, g.len() - 1) == fit_end(g, max_width as int, i as int),
            decreases i,
        {
            i -= 1;
            proof {
                lemma_prefix_step(g, i as int);
                lemma_prefix_monotone(g, i as int, i + 1);
            }
            width = width - plan.glyphs[i].advance.x as u32;
        }
        let j = i;
        let last_width = width;
        while i > 0 && plan.glyphs[i].codepoint != self.space_codepoint
            invariant
                g == plan.glyphs@,
                advances_nonneg(g),
                i <= j < g.len(),
                j == fit_end(g, max_width as int, g.len() - 1),
                width == prefix_adv(g, i as int),
                space_back(g, self.space_codepoint, j as int) == space_back(g, self.space_codepoint, i as int),
            decreases i,
        {
            i -= 1;
            proof {
                lemma_prefix_step(g, i as int);
                lemma_prefix_monotone(g, i as int, i + 1);
            }
            width = width - plan.glyphs[i].advance.x as u32;
        }
        if i == 0 {
            i = j;
            width = last_width;
        }
        (i, width)
    }
}

} // verus!
