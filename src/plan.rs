//! Render plans: positioned glyph sequences with a sparse per-glyph script map.
use vstd::prelude::*;
use fnv::FnvHashMap;

verus! {

/// std's default-constructed hasher builder, which the script map is keyed through.
#[verifier::external_type_specification]
#[verifier::external_body]
#[verifier::reject_recursive_types(H)]
pub struct ExBuildHasherDefault<H>(std::hash::BuildHasherDefault<H>);

/// The FNV hasher behind the script map.
#[verifier::external_type_specification]
#[verifier::external_body]
pub struct ExFnvHasher(fnv::FnvHasher);

/// A pair of integer pixel coordinates.
#[derive(Debug, Clone, Copy, PartialEq, Eq, Structural)]
pub struct Point {
    pub x: i32,
    pub y: i32,
}

/// One positioned glyph.
#[derive(Debug, Clone, Copy, PartialEq, Eq, Structural)]
pub struct GlyphPlan {
    /// Glyph id in the face that produced it; 0 means the face lacks the character.
    pub codepoint: u32,
    /// Byte offset in the shaped text where the glyph's characters begin.
    pub cluster: usize,
    pub offset: Point,
    pub advance: Point,
}

/// A positioned glyph sequence, its width and, for glyphs that came from a
/// fallback face, the script that selects that face.
#[derive(Debug, Clone)]
pub struct RenderPlan {
    pub width: u32,
    pub scripts: FnvHashMap<usize, u32>,
    pub glyphs: Vec<GlyphPlan>,
}

/// Sum of the horizontal advances.
pub open spec fn adv_sum(g: Seq<GlyphPlan>) -> int
    decreases g.len(),
{
    if g.len() == 0 {
        0
    } else {
        adv_sum(g.drop_last()) + g.last().advance.x as int
    }
}

/// Sum of the horizontal advances of the first `k` glyphs.
pub open spec fn prefix_adv(g: Seq<GlyphPlan>, k: int) -> int {
    adv_sum(g.subrange(0, k))
}

pub open spec fn advances_nonneg(g: Seq<GlyphPlan>) -> bool {
    forall|i: int| 0 <= i < g.len() ==> g[i].advance.x >= 0
}

pub proof fn lemma_adv_sum_concat(a: Seq<GlyphPlan>, b: Seq<GlyphPlan>)
    ensures
        adv_sum(a + b) == adv_sum(a) + adv_sum(b),
    decreases b.len(),
{
    if b.len() == 0 {
        assert(a + b =~= a);
    } else {
        assert((a + b).drop_last() =~= a + b.drop_last());
        lemma_adv_sum_concat(a, b.drop_last());
    }
}

pub proof fn lemma_prefix_step(g: Seq<GlyphPlan>, k: int)
    requires
        0 <= k < g.len(),
    ensures
        prefix_adv(g, k + 1) == prefix_adv(g, k) + g[k].advance.x,
{
    assert(g.subrange(0, k + 1).drop_last() =~= g.subrange(0, k));
}

pub proof fn lemma_adv_sum_nonneg(g: Seq<GlyphPlan>)
    requires
        advances_nonneg(g),
    ensures
        adv_sum(g) >= 0,
    decreases g.len(),
{
    if g.len() > 0 {
        lemma_adv_sum_nonneg(g.drop_last());
    }
}

/// Prefix sums of non-negative advances grow with the prefix and stay within the total.
pub proof fn lemma_prefix_monotone(g: Seq<GlyphPlan>, i: int, j: int)
    requires
        advances_nonneg(g),
        0 <= i <= j <= g.len(),
    ensures
        0 <= prefix_adv(g, i) <= prefix_adv(g, j) <= adv_sum(g),
{
    let a = g.subrange(0, i);
    let b = g.subrange(i, j);
    let c = g.subrange(j, g.len() as int);
    assert(g.subrange(0, j) =~= a + b);
    assert(g =~= a + b + c);
    lemma_adv_sum_concat(a, b);
    lemma_adv_sum_concat(a + b, c);
    lemma_adv_sum_nonneg(a);
    lemma_adv_sum_nonneg(b);
    lemma_adv_sum_nonneg(c);
}

/// Sum of the advances of glyphs `a..b`.
pub open spec fn seg_adv(g: Seq<GlyphPlan>, a: int, b: int) -> int {
    adv_sum(g.subrange(a, b))
}

pub proof fn lemma_seg_split(g: Seq<GlyphPlan>, a: int, b: int, c: int)
    requires
        0 <= a <= b <= c <= g.len(),
    ensures
        seg_adv(g, a, c) == seg_adv(g, a, b) + seg_adv(g, b, c),
{
    assert(g.subrange(a, c) =~= g.subrange(a, b) + g.subrange(b, c));
    lemma_adv_sum_concat(g.subrange(a, b), g.subrange(b, c));
}

pub proof fn lemma_seg_one(g: Seq<GlyphPlan>, a: int)
    requires
        0 <= a < g.len(),
    ensures
        seg_adv(g, a, a + 1) == g[a].advance.x,
{
    let s = g.subrange(a, a + 1);
    assert(s.drop_last() =~= Seq::<GlyphPlan>::empty());
    assert(adv_sum(s.drop_last()) == 0);
    assert(s.last() == g[a]);
}

pub proof fn lemma_seg_bounds(g: Seq<GlyphPlan>, a: int, b: int)
    requires
        advances_nonneg(g),
        0 <= a <= b <= g.len(),
    ensures
        0 <= seg_adv(g, a, b) <= adv_sum(g),
{
    lemma_seg_split(g, 0, a, b);
    lemma_seg_split(g, 0, b, g.len() as int);
    lemma_adv_sum_nonneg(g.subrange(0, a));
    lemma_adv_sum_nonneg(g.subrange(a, b));
    lemma_adv_sum_nonneg(g.subrange(b, g.len() as int));
    assert(g.subrange(0, g.len() as int) =~= g);
}

/// The sum of the advances of non-negative glyphs whose total fits in `u32`.
pub(crate) fn total_width(g: &Vec<GlyphPlan>) -> (r: u32)
    requires
        advances_nonneg(g@),
        adv_sum(g@) <= u32::MAX,
    ensures
        r == adv_sum(g@),
{
    let mut w: u32 = 0;
    let mut i: usize = 0;
    while i < g.len()
        invariant
            i <= g@.len(),
            advances_nonneg(g@),
            adv_sum(g@) <= u32::MAX,
            w == prefix_adv(g@, i as int),
        decreases g.len() - i,
    {
        proof {
            lemma_prefix_step(g@, i as int);
            lemma_prefix_monotone(g@, i + 1, g@.len() as int);
        }
        w = w + g[i].advance.x as u32;
        i += 1;
    }
    assert(g@.subrange(0, i as int) =~= g@);
    w
}

/// The entries of `m` with keys in `lo..hi`, moved so that `lo` lands on `at`.
pub open spec fn shifted_scripts(m: Map<usize, u32>, lo: int, hi: int, at: int) -> Map<usize, u32> {
    Map::new(
        |k: usize| at <= k < at + hi - lo && m.contains_key((k - at + lo) as usize),
        |k: usize| m[(k - at + lo) as usize],
    )
}

/// A new script map holding the entries of `m` with keys in `lo..hi`, each
/// key moved by `at - lo`.
pub(crate) fn shift_scripts(m: &FnvHashMap<usize, u32>, lo: usize, hi: usize, at: usize) -> (r: FnvHashMap<usize, u32>)
    requires
        lo <= hi,
        at + (hi - lo) <= usize::MAX,
    ensures
        r@ == shifted_scripts(m@, lo as int, hi as int, at as int),
{
    let mut r: FnvHashMap<usize, u32> = FnvHashMap::default();
    let mut i: usize = lo;
    while i < hi
        invariant
            lo <= i <= hi,
            at + (hi - lo) <= usize::MAX,
            r@ == shifted_scripts(m@, lo as int, i as int, at as int),
        decreases hi - i,
    {
        match scripts_get(m, i) {
            Some(v) => {
                scripts_insert(&mut r, i - lo + at, v);
            },
            None => {},
        }
        i += 1;
        assert(r@ =~= shifted_scripts(m@, lo as int, i as int, at as int));
    }
    r
}

/// Walking forward from glyph `i`, the first glyph whose right edge lies beyond `a`
/// (the glyph count if none does).
pub open spec fn first_past(g: Seq<GlyphPlan>, a: int, i: int) -> int
    decreases g.len() - i,
{
    if 0 <= i < g.len() && prefix_adv(g, i + 1) <= a {
        first_past(g, a, i + 1)
    } else {
        i
    }
}

/// The glyph boundary nearest to the horizontal position `a`: the left or right
/// edge of the glyph that covers `a`, the left one on a tie; the glyph count
/// past the end.
pub open spec fn advance_index(g: Seq<GlyphPlan>, a: int) -> int {
    let j = first_past(g, a, 0);
    if j < g.len() && prefix_adv(g, j + 1) - a < a - prefix_adv(g, j) {
        j + 1
    } else {
        j
    }
}

/// Sum of the vertical advances of the first `k` glyphs.
pub open spec fn prefix_adv_y(g: Seq<GlyphPlan>, k: int) -> int
    decreases k,
{
    if k <= 0 || k > g.len() {
        0
    } else {
        prefix_adv_y(g, k - 1) + g[k - 1].advance.y
    }
}

/// Where glyph `i` is drawn from: the pen, moved from `origin` by the advances
/// of the glyphs before it, plus the glyph's own offset.
pub open spec fn glyph_origin(g: Seq<GlyphPlan>, origin: Point, i: int) -> (int, int) {
    (
        origin.x + prefix_adv(g, i) + g[i].offset.x,
        origin.y + prefix_adv_y(g, i) + g[i].offset.y,
    )
}

/// Every pen position and glyph origin along the plan fits in `i32`.
pub open spec fn origins_fit(g: Seq<GlyphPlan>, origin: Point) -> bool {
    &&& forall|i: int| 0 <= i <= g.len() ==> i32::MIN <= #[trigger] prefix_adv(g, i) + origin.x <= i32::MAX
    &&& forall|i: int| 0 <= i <= g.len() ==> i32::MIN <= #[trigger] prefix_adv_y(g, i) + origin.y <= i32::MAX
    &&& forall|i: int| 0 <= i < g.len() ==> i32::MIN <= #[trigger] glyph_origin(g, origin, i).0 <= i32::MAX
    &&& forall|i: int| 0 <= i < g.len() ==> i32::MIN <= #[trigger] glyph_origin(g, origin, i).1 <= i32::MAX
}

/// Relies on `HashMap::insert` (here with the FNV hasher): afterwards the key maps
/// to the value and every other entry is as it was.
#[verifier::external_body]
pub(crate) fn scripts_insert(m: &mut FnvHashMap<usize, u32>, k: usize, v: u32)
    ensures
        final(m)@ == old(m)@.insert(k, v),
{
    m.insert(k, v);
}

/// Relies on `HashMap::get` (here with the FNV hasher): the value under the key, if any.
#[verifier::external_body]
pub(crate) fn scripts_get(m: &FnvHashMap<usize, u32>, k: usize) -> (r: Option<u32>)
    ensures
        r == (if m@.contains_key(k) { Some(m@[k]) } else { None::<u32> }),
{
    m.get(&k).copied()
}

/// Relies on `HashMap::remove` (here with the FNV hasher): the entry under the key
/// is taken out and handed back.
#[verifier::external_body]
pub(crate) fn scripts_remove(m: &mut FnvHashMap<usize, u32>, k: usize) -> (r: Option<u32>)
    ensures
        final(m)@ == old(m)@.remove(k),
        r == (if old(m)@.contains_key(k) { Some(old(m)@[k]) } else { None::<u32> }),
{
    m.remove(&k)
}

impl Default for RenderPlan {
    fn default() -> (r: RenderPlan)
        ensures
            r.width == 0,
            r.glyphs@.len() == 0,
            r.scripts@.is_empty(),
    {
        RenderPlan::new()
    }
}

impl RenderPlan {
    /// The width is the sum of the advances, no advance is negative, and every
    /// script entry names a glyph of the plan.
    pub open spec fn wf(&self) -> bool {
        &&& advances_nonneg(self.glyphs@)
        &&& self.width as int == adv_sum(self.glyphs@)
        &&& forall|k: usize| self.scripts@.contains_key(k) ==> k < self.glyphs@.len()
    }

    /// The empty plan.
    pub fn new() -> (r: RenderPlan)
        ensures
            r.width == 0,
            r.glyphs@.len() == 0,
            r.scripts@.is_empty(),
            r.wf(),
    {
        RenderPlan { width: 0, scripts: FnvHashMap::default(), glyphs: Vec::new() }
    }

    /// Number of glyphs.
    pub fn len(&self) -> (r: usize)
        ensures
            r == self.glyphs@.len(),
    {
        self.glyphs.len()
    }

    /// The glyph at `index`.
    pub fn glyph(&self, index: usize) -> (r: GlyphPlan)
        requires
            index < self.glyphs@.len(),
        ensures
            r == self.glyphs@[index as int],
    {
        self.glyphs[index]
    }

    /// The script of the fallback face that produced the glyph at `index`, if any.
    pub fn script(&self, index: usize) -> (r: Option<u32>)
        ensures
            r == (if self.scripts@.contains_key(index) {
                Some(self.scripts@[index])
            } else {
                None::<u32>
            }),
    {
        scripts_get(&self.scripts, index)
    }

    /// Widens every glyph but the last by `letter_spacing`.
    pub fn space_out(&mut self, letter_spacing: u32)
        requires
            old(self).wf(),
            forall|i: int| 0 <= i < old(self).glyphs@.len() - 1 ==> #[trigger] old(self).glyphs@[i].advance.x
                + letter_spacing <= i32::MAX,
            old(self).glyphs@.len() > 0 ==> old(self).width + (old(self).glyphs@.len() - 1)
                * letter_spacing <= u32::MAX,
        ensures
            final(self).glyphs@.len() == old(self).glyphs@.len(),
            forall|i: int| 0 <= i < old(self).glyphs@.len() - 1 ==> #[trigger] final(self).glyphs@[i] == (
            GlyphPlan {
                advance: Point { x: (old(self).glyphs@[i].advance.x + letter_spacing) as i32, ..old(self).glyphs@[i].advance },
                ..old(self).glyphs@[i]
            }),
            old(self).glyphs@.len() > 0 ==> final(self).glyphs@.last() == old(self).glyphs@.last(),
            old(self).glyphs@.len() > 0 ==> final(self).width == old(self).width + (old(self).glyphs@.len() - 1)
                * letter_spacing,
            old(self).glyphs@.len() == 0 ==> final(self).width == old(self).width,
            final(self).scripts@ == old(self).scripts@,
            final(self).wf(),
    {
        if letter_spacing == 0 {
            assert forall|i: int| 0 <= i < old(self).glyphs@.len() - 1 implies #[trigger] self.glyphs@[i] == (
            GlyphPlan {
                advance: Point { x: (old(self).glyphs@[i].advance.x + letter_spacing) as i32, ..old(self).glyphs@[i].advance },
                ..old(self).glyphs@[i]
            }) by {}
            return;
        }
        let n = self.glyphs.len();
        if n == 0 {
            return;
        }
        let ghost g = self.glyphs@;
        let mut i: usize = 0;
        while i < n - 1
            invariant
                n == g.len(),
                g == old(self).glyphs@,
                self.width == old(self).width,
                self.scripts@ == old(self).scripts@,
                old(self).wf(),
                old(self).width + (n - 1) * letter_spacing <= u32::MAX,
                n > 0,
                advances_nonneg(g),
                i <= n - 1,
                self.glyphs@.len() == n,
                forall|j: int| 0 <= j < n - 1 ==> #[trigger] g[j].advance.x + letter_spacing <= i32::MAX,
                forall|j: int| 0 <= j < i ==> #[trigger] self.glyphs@[j] == (
                GlyphPlan {
                    advance: Point { x: (g[j].advance.x + letter_spacing) as i32, ..g[j].advance },
                    ..g[j]
                }),
                forall|j: int| i <= j < n ==> #[trigger] self.glyphs@[j] == g[j],
                prefix_adv(self.glyphs@, i as int) == prefix_adv(g, i as int) + i * letter_spacing,
            decreases n - 1 - i,
        {
            proof {
                lemma_prefix_step(self.glyphs@, i as int);
                lemma_prefix_step(g, i as int);
            }
            let ghost before = self.glyphs@;
            let x = self.glyphs[i].advance.x + letter_spacing as i32;
            self.glyphs[i].advance.x = x;
            proof {
                assert(self.glyphs@.subrange(0, i as int) =~= before.subrange(0, i as int));
                lemma_prefix_step(self.glyphs@, i as int);
                assert((i + 1) * letter_spacing == i * letter_spacing + letter_spacing) by (nonlinear_arith);
            }
            i += 1;
        }
        proof {
            let h = self.glyphs@;
            lemma_prefix_step(h, n - 1);
            lemma_prefix_step(g, n - 1);
            assert(h.subrange(0, n as int) =~= h);
            assert(g.subrange(0, n as int) =~= g);
            assert(forall|j: int| 0 <= j < n ==> #[trigger] h[j].advance.x >= 0);
            assert((n - 1) * letter_spacing >= n - 1) by (nonlinear_arith)
                requires
                    n >= 1,
                    letter_spacing >= 1,
            ;
        }
        let spaced = (n - 1) as u32;
        self.width = self.width + spaced * letter_spacing;
    }

    /// Cuts the plan at glyph `index`: this plan keeps the glyphs before it and
    /// takes `width` as its width; the returned plan holds the rest, the remaining
    /// width, and the script entries of its glyphs with keys counted from its start.
    pub fn split_off(&mut self, index: usize, width: u32) -> (next: RenderPlan)
        requires
            index <= old(self).glyphs@.len(),
            width <= old(self).width,
        ensures
            final(self).glyphs@ == old(self).glyphs@.subrange(0, index as int),
            final(self).width == width,
            final(self).scripts@ == old(self).scripts@.remove_keys(
                Set::new(|k: usize| index <= k < old(self).glyphs@.len()),
            ),
            next.glyphs@ == old(self).glyphs@.subrange(index as int, old(self).glyphs@.len() as int),
            next.width + width == old(self).width,
            next.scripts@ == shifted_scripts(old(self).scripts@, index as int, old(self).glyphs@.len() as int, 0),
    {
        let n = self.glyphs.len();
        let ghost m = self.scripts@;
        let mut next_scripts: FnvHashMap<usize, u32> = FnvHashMap::default();
        let mut i: usize = index;
        while i < n
            invariant
                index <= i <= n,
                n == self.glyphs@.len(),
                self.glyphs@ == old(self).glyphs@,
                self.width == old(self).width,
                self.scripts@ == m.remove_keys(Set::new(|k: usize| index <= k < i)),
                next_scripts@ == shifted_scripts(m, index as int, i as int, 0),
            decreases n - i,
        {
            match scripts_remove(&mut self.scripts, i) {
                Some(v) => {
                    scripts_insert(&mut next_scripts, i - index, v);
                },
                None => {},
            }
            i += 1;
            assert(self.scripts@ =~= m.remove_keys(Set::new(|k: usize| index <= k < i)));
            assert(next_scripts@ =~= shifted_scripts(m, index as int, i as int, 0));
        }
        let next_glyphs = self.glyphs.split_off(index);
        let next_width = self.width - width;
        self.width = width;
        RenderPlan { width: next_width, scripts: next_scripts, glyphs: next_glyphs }
    }

    /// Sum of the advances of the first `index` glyphs (of all, if fewer).
    pub fn total_advance(&self, index: usize) -> (r: i32)
        requires
            self.wf(),
            adv_sum(self.glyphs@) <= i32::MAX,
        ensures
            r == prefix_adv(self.glyphs@, if index < self.glyphs@.len() { index as int } else { self.glyphs@.len() as int }),
    {
        let ghost g = self.glyphs@;
        let mut sum: i32 = 0;
        let mut i: usize = 0;
        while i < index && i < self.glyphs.len()
            invariant
                g == self.glyphs@,
                advances_nonneg(g),
                adv_sum(g) <= i32::MAX,
                i <= g.len(),
                i <= index,
                sum == prefix_adv(g, i as int),
            decreases g.len() - i,
        {
            proof {
                lemma_prefix_step(g, i as int);
                lemma_prefix_monotone(g, i + 1, g.len() as int);
            }
            sum = sum + self.glyphs[i].advance.x;
            i += 1;
        }
        sum
    }

    /// The glyph index at the horizontal position `advance` (see `advance_index`).
    pub fn index_from_advance(&self, advance: i32) -> (r: usize)
        requires
            self.wf(),
            adv_sum(self.glyphs@) <= i32::MAX,
        ensures
            r == advance_index(self.glyphs@, advance as int),
    {
        let ghost g = self.glyphs@;
        let n = self.glyphs.len();
        let mut sum: i64 = 0;
        let mut index: usize = 0;
        proof {
            lemma_prefix_monotone(g, 0, 0);
        }
        while index < n && sum + self.glyph_advance(index) as i64 <= advance as i64
            invariant
                g == self.glyphs@,
                n == g.len(),
                advances_nonneg(g),
                adv_sum(g) <= i32::MAX,
                index <= n,
                sum == prefix_adv(g, index as int),
                0 <= sum <= i32::MAX,
                first_past(g, advance as int, 0) == first_past(g, advance as int, index as int),
            decreases n - index,
        {
            proof {
                lemma_prefix_step(g, index as int);
                lemma_prefix_monotone(g, index + 1, n as int);
            }
            sum = sum + self.glyph_advance(index) as i64;
            index += 1;
        }
        if index < n {
            proof {
                lemma_prefix_step(g, index as int);
            }
            let next = sum + self.glyph_advance(index) as i64;
            if next - (advance as i64) < (advance as i64) - sum {
                index + 1
            } else {
                index
            }
        } else {
            index
        }
    }

    /// The point each glyph is drawn from when the plan is laid out from `origin`.
    pub fn glyph_origins(&self, origin: Point) -> (r: Vec<Point>)
        requires
            origins_fit(self.glyphs@, origin),
        ensures
            r@.len() == self.glyphs@.len(),
            forall|i: int| 0 <= i < r@.len() ==> (#[trigger] r@[i].x as int, r@[i].y as int) == glyph_origin(self.glyphs@, origin, i),
    {
        let ghost g = self.glyphs@;
        let mut r: Vec<Point> = Vec::new();
        let mut pen = origin;
        let mut i: usize = 0;
        while i < self.glyphs.len()
            invariant
                g == self.glyphs@,
                origins_fit(g, origin),
                i <= g.len(),
                r@.len() == i,
                pen.x == origin.x + prefix_adv(g, i as int),
                pen.y == origin.y + prefix_adv_y(g, i as int),
                forall|j: int| 0 <= j < i ==> (#[trigger] r@[j].x as int, r@[j].y as int) == glyph_origin(g, origin, j),
            decreases g.len() - i,
        {
            let glyph = self.glyphs[i];
            assert(i32::MIN <= glyph_origin(g, origin, i as int).0 <= i32::MAX);
            assert(i32::MIN <= glyph_origin(g, origin, i as int).1 <= i32::MAX);
            r.push(Point { x: pen.x + glyph.offset.x, y: pen.y + glyph.offset.y });
            proof {
                lemma_prefix_step(g, i as int);
                assert(i32::MIN <= prefix_adv(g, i + 1) + origin.x <= i32::MAX);
                assert(i32::MIN <= prefix_adv_y(g, i + 1) + origin.y <= i32::MAX);
            }
            pen = Point { x: pen.x + glyph.advance.x, y: pen.y + glyph.advance.y };
            i += 1;
        }
        r
    }

    /// Horizontal advance of the glyph at `index`.
    pub fn glyph_advance(&self, index: usize) -> (r: i32)
        requires
            index < self.glyphs@.len(),
        ensures
            r == self.glyphs@[index as int].advance.x,
    {
        self.glyphs[index].advance.x
    }
}

} // verus!
