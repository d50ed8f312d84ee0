//! Logical styles, how they select one of a family's faces, and how a
//! family's faces are picked from the style names found for it.
use vstd::prelude::*;
use fnv::FnvHashMap;

verus! {

/// Font sizes, in 1/64 of a point.
pub const FONT_SIZES: [u32; 3] = [349, 524, 629];

pub const KEYBOARD_FONT_SIZES: [u32; 2] = [337, 843];

pub const DISPLAY_FONT_SIZE: u32 = 2516;

/// Depth beyond which categories stop shrinking.
pub const CATEGORY_DEPTH_LIMIT: usize = 5;

pub open spec fn pow(b: int, e: nat) -> int
    decreases e,
{
    if e == 0 {
        1
    } else {
        b * pow(b, (e - 1) as nat)
    }
}

/// `r` is at most 524 * (2/3)^(m/5), in whole numbers: r^5 * 3^m <= 524^5 * 2^m.
pub open spec fn within_category_scale(r: int, m: nat) -> bool {
    pow(r, 5) * pow(3, m) <= pow(524, 5) * pow(2, m)
}

fn fifth_power(r: u64) -> (p: u64)
    requires
        r <= 525,
    ensures
        p == pow(r as int, 5),
        p <= 40_000_000_000_000,
{
    proof {
        reveal_with_fuel(pow, 6);
    }
    assert(r * r <= 525 * 525) by (nonlinear_arith)
        requires r <= 525;
    let p2 = r * r;
    assert(p2 * r <= 525 * 525 * 525) by (nonlinear_arith)
        requires p2 <= 525 * 525, r <= 525;
    let p3 = p2 * r;
    assert(p3 * r <= 525 * 525 * 525 * 525) by (nonlinear_arith)
        requires p3 <= 525 * 525 * 525, r <= 525;
    let p4 = p3 * r;
    assert(p4 * r <= 525 * 525 * 525 * 525 * 525) by (nonlinear_arith)
        requires p4 <= 525 * 525 * 525 * 525, r <= 525;
    let p5 = p4 * r;
    assert(p5 == r * (r * (r * (r * r)))) by (nonlinear_arith)
        requires p5 == p4 * r, p4 == p3 * r, p3 == p2 * r, p2 == r * r;
    p5
}

fn small_power(b: u64, e: usize) -> (p: u64)
    requires
        b <= 3,
        e <= 5,
    ensures
        p == pow(b as int, e as nat),
        p <= 243,
{
    let mut p: u64 = 1;
    let mut i: usize = 0;
    while i < e
        invariant
            b <= 3,
            i <= e <= 5,
            p == pow(b as int, i as nat),
            p <= pow(3, i as nat),
        decreases e - i,
    {
        proof {
            assert(pow(3, (i + 1) as nat) == 3 * pow(3, i as nat));
            assert(pow(b as int, (i + 1) as nat) == b * pow(b as int, i as nat));
            assert(p * b <= pow(3, i as nat) * 3) by (nonlinear_arith)
                requires p <= pow(3, i as nat), b <= 3, p >= 0, b >= 0;
            reveal_with_fuel(pow, 6);
            assert(pow(3, 5) == 243);
            assert(p * b == b * p);
        }
        p = p * b;
        i += 1;
    }
    proof {
        reveal_with_fuel(pow, 6);
        assert(pow(3, e as nat) <= 243);
    }
    p
}

proof fn lemma_scale_below_525(k: nat)
    requires
        k <= 5,
    ensures
        !within_category_scale(525, k),
{
    reveal_with_fuel(pow, 6);
    assert(pow(525, 5) == 39883798828125);
    assert(pow(524, 5) == 39505397402624);
    if k == 0 {
    } else if k == 1 {
    } else if k == 2 {
        assert(pow(2, 2) == 4 && pow(3, 2) == 9);
    } else if k == 3 {
        assert(pow(2, 3) == 8 && pow(3, 3) == 27);
    } else if k == 4 {
        assert(pow(2, 4) == 16 && pow(3, 4) == 81);
    } else {
        assert(pow(2, 5) == 32 && pow(3, 5) == 243);
    }
}

/// The size for a category nested `depth` deep: the normal size scaled by
/// (2/3)^(d/5) with `d` the depth capped at 5, rounded down.
pub fn category_font_size(depth: usize) -> (r: u32)
    ensures
        ({
            let m = (if depth < CATEGORY_DEPTH_LIMIT { depth } else { CATEGORY_DEPTH_LIMIT }) as nat;
            within_category_scale(r as int, m) && !within_category_scale(r + 1, m)
        }),
{
    let m: usize = if depth < CATEGORY_DEPTH_LIMIT { depth } else { CATEGORY_DEPTH_LIMIT };
    let shrink = small_power(3, m);
    let top = fifth_power(524);
    let grow = small_power(2, m);
    assert(top * grow <= 40_000_000_000_000 * 243) by (nonlinear_arith)
        requires top <= 40_000_000_000_000, grow <= 243;
    let budget = top * grow;
    proof {
        reveal_with_fuel(pow, 6);
        lemma_scale_below_525(m as nat);
    }
    let mut r: u64 = 524;
    loop
        invariant
            r <= 524,
            shrink == pow(3, m as nat),
            shrink <= 243,
            budget == pow(524, 5) * pow(2, m as nat),
            !within_category_scale(r + 1, m as nat),
        ensures
            r <= 524,
            within_category_scale(r as int, m as nat),
            !within_category_scale(r + 1, m as nat),
        decreases r,
    {
        let p = fifth_power(r);
        assert(p * shrink <= 40_000_000_000_000 * 243) by (nonlinear_arith)
            requires p <= 40_000_000_000_000, shrink <= 243;
        if p * shrink <= budget {
            break;
        }
        proof {
            if r == 0 {
                reveal_with_fuel(pow, 6);
                assert(pow(0, 5) == 0);
            }
        }
        r = r - 1;
    }
    r as u32
}

#[derive(Debug, Clone, Copy, PartialEq, Eq, Structural)]
pub enum Family {
    SansSerif,
    Serif,
    Monospace,
    Keyboard,
    Display,
}

/// A set of style flags, italic (bit 0) and bold (bit 1).
#[derive(Debug, Clone, Copy, PartialEq, Eq, Structural)]
pub struct Variant {
    pub bits: u8,
}

pub const ITALIC_BIT: u8 = 1;

pub const BOLD_BIT: u8 = 2;

impl Variant {
    pub fn regular() -> (r: Variant)
        ensures
            r.bits == 0,
    {
        Variant { bits: 0 }
    }

    pub fn italic() -> (r: Variant)
        ensures
            r.bits == ITALIC_BIT,
    {
        Variant { bits: ITALIC_BIT }
    }

    pub fn bold() -> (r: Variant)
        ensures
            r.bits == BOLD_BIT,
    {
        Variant { bits: BOLD_BIT }
    }

    /// Both sets of flags.
    pub fn union(self, other: Variant) -> (r: Variant)
        ensures
            r.bits == self.bits | other.bits,
    {
        Variant { bits: self.bits | other.bits }
    }

    /// Every flag of `other` is set here.
    pub fn contains(self, other: Variant) -> (r: bool)
        ensures
            r == (self.bits & other.bits == other.bits),
    {
        self.bits & other.bits == other.bits
    }
}

/// A logical style: family, flags and size in 1/64 of a point.
#[derive(Debug, Clone, Copy, PartialEq, Eq, Structural)]
pub struct Style {
    pub family: Family,
    pub variant: Variant,
    pub size: u32,
}

/// One of the four faces of a family.
#[derive(Debug, Clone, Copy, PartialEq, Eq, Structural)]
pub enum FontSlot {
    Regular,
    Italic,
    Bold,
    BoldItalic,
}

/// The face for a set of flags: bold italic only with both flags.
pub open spec fn slot_of(bits: u8) -> FontSlot {
    let italic = bits & ITALIC_BIT == ITALIC_BIT;
    let bold = bits & BOLD_BIT == BOLD_BIT;
    if italic && bold {
        FontSlot::BoldItalic
    } else if italic {
        FontSlot::Italic
    } else if bold {
        FontSlot::Bold
    } else {
        FontSlot::Regular
    }
}

/// Which face of a family a set of flags selects.
pub fn slot_from_variant(variant: Variant) -> (r: FontSlot)
    ensures
        r == slot_of(variant.bits),
{
    let b = variant.bits;
    assert(b & 3u8 == 3u8 <==> (b & 1u8 == 1u8 && b & 2u8 == 2u8)) by (bit_vector);
    assert(ITALIC_BIT | BOLD_BIT == 3u8) by (bit_vector);
    if variant.contains(Variant::italic().union(Variant::bold())) {
        FontSlot::BoldItalic
    } else if variant.contains(Variant::italic()) {
        FontSlot::Italic
    } else if variant.contains(Variant::bold()) {
        FontSlot::Bold
    } else {
        FontSlot::Regular
    }
}

/// The face a style selects: a family's face for sans-serif, serif and
/// monospace, the single keyboard or display face otherwise (the slot is
/// then always `Regular`).
pub fn slot_from_style(style: &Style) -> (r: (Family, FontSlot))
    ensures
        r.0 == style.family,
        r.1 == (match style.family {
            Family::Keyboard | Family::Display => FontSlot::Regular,
            _ => slot_of(style.variant.bits),
        }),
{
    match style.family {
        Family::Keyboard | Family::Display => (style.family, FontSlot::Regular),
        _ => (style.family, slot_from_variant(style.variant)),
    }
}

/// The style name a face is filed under: its own, or "Regular" if it has none.
pub open spec fn filed_name(name: Option<String>) -> Seq<char> {
    match name {
        Some(s) => s@,
        None => "Regular"@,
    }
}

/// The faces filed by style name in order, a later face replacing an earlier
/// one under the same name.
pub open spec fn filed_map(names: Seq<Option<String>>) -> Map<Seq<char>, usize>
    decreases names.len(),
{
    if names.len() == 0 {
        Map::empty()
    } else {
        filed_map(names.drop_last()).insert(filed_name(names.last()), (names.len() - 1) as usize)
    }
}

/// The face filed under `key`, if any.
pub open spec fn last_filed(names: Seq<Option<String>>, key: Seq<char>) -> Option<int> {
    if filed_map(names).contains_key(key) {
        Some(filed_map(names)[key] as int)
    } else {
        None
    }
}

/// What a map of style names holds: each name, as characters, with the index
/// of the face filed under it.
pub uninterp spec fn styles_of(m: FnvHashMap<String, usize>) -> Map<Seq<char>, usize>;

/// Relies on `HashMap::default` (here with the FNV hasher): a new map is empty.
#[verifier::external_body]
fn styles_new() -> (r: FnvHashMap<String, usize>)
    ensures
        forall|k: Seq<char>| !styles_of(r).contains_key(k),
{
    FnvHashMap::default()
}

/// Relies on `HashMap::insert` (here with the FNV hasher): afterwards the name
/// maps to the index and every other entry is as it was; `String` keys are
/// equal exactly when their characters are.
#[verifier::external_body]
fn styles_insert(m: &mut FnvHashMap<String, usize>, k: String, v: usize)
    ensures
        styles_of(*final(m)) == styles_of(*old(m)).insert(k@, v),
{
    m.insert(k, v);
}

/// Relies on `HashMap::get` (here with the FNV hasher, looked up by `&str`):
/// the index under the name, if any.
#[verifier::external_body]
fn styles_get(m: &FnvHashMap<String, usize>, k: &str) -> (r: Option<usize>)
    ensures
        r == (if styles_of(*m).contains_key(k@) { Some(styles_of(*m)[k@]) } else { None::<usize> }),
{
    m.get(k).copied()
}

/// `a`, unless it is absent.
pub open spec fn or_else(a: Option<int>, b: Option<int>) -> Option<int> {
    match a {
        Some(_) => a,
        None => b,
    }
}

/// Faces of a family, as indices into the list of its faces.
#[derive(Debug, Clone, Copy, PartialEq, Eq, Structural)]
pub struct FamilyFaces {
    pub regular: usize,
    pub italic: usize,
    pub bold: usize,
    pub bold_italic: usize,
}

/// The four faces of a family, given the style name of each of its faces.
/// Regular is "Regular", "Roman" or "Book", in that order of preference, and
/// must exist; italic is "Italic" or "Book Italic", else regular; bold is
/// "Bold", "Semibold", "SemiBold" or "Medium", else regular; bold italic is
/// "Bold Italic", "SemiBold Italic" or "Medium Italic", else italic.
pub open spec fn family_faces(names: Seq<Option<String>>) -> Option<FamilyFaces> {
    let regular = or_else(
        last_filed(names, "Regular"@),
        or_else(last_filed(names, "Roman"@), last_filed(names, "Book"@)),
    );
    match regular {
        None => None,
        Some(r) => {
            let italic = match or_else(last_filed(names, "Italic"@), last_filed(names, "Book Italic"@)) {
                Some(i) => i,
                None => r,
            };
            let bold = match or_else(
                last_filed(names, "Bold"@),
                or_else(
                    last_filed(names, "Semibold"@),
                    or_else(last_filed(names, "SemiBold"@), last_filed(names, "Medium"@)),
                ),
            ) {
                Some(b) => b,
                None => r,
            };
            let bold_italic = match or_else(
                last_filed(names, "Bold Italic"@),
                or_else(last_filed(names, "SemiBold Italic"@), last_filed(names, "Medium Italic"@)),
            ) {
                Some(b) => b,
                None => italic,
            };
            Some(
                FamilyFaces {
                    regular: r as usize,
                    italic: italic as usize,
                    bold: bold as usize,
                    bold_italic: bold_italic as usize,
                },
            )
        },
    }
}

/// Index of the face filed under `key`.
fn find_filed(styles: &FnvHashMap<String, usize>, names: Ghost<Seq<Option<String>>>, key: &str) -> (r: Option<usize>)
    requires
        styles_of(*styles) == filed_map(names@),
    ensures
        match r {
            Some(i) => last_filed(names@, key@) == Some(i as int),
            None => last_filed(names@, key@) is None,
        },
{
    styles_get(styles, key)
}

fn first_found(a: Option<usize>, b: Option<usize>) -> (r: Option<usize>)
    ensures
        match r {
            Some(i) => or_else(
                match a { Some(x) => Some(x as int), None => None },
                match b { Some(x) => Some(x as int), None => None },
            ) == Some(i as int),
            None => a is None && b is None,
        },
{
    match a {
        Some(_) => a,
        None => b,
    }
}

/// Picks the four faces of a family from the style name of each of its faces
/// (see `family_faces`); `None` when no face is regular.
pub fn choose_family_faces(names: &Vec<Option<String>>) -> (r: Option<FamilyFaces>)
    ensures
        r == family_faces(names@),
{
    let mut styles = styles_new();
    assert(styles_of(styles) =~= filed_map(names@.subrange(0, 0)));
    let mut i: usize = 0;
    while i < names.len()
        invariant
            i <= names@.len(),
            styles_of(styles) == filed_map(names@.subrange(0, i as int)),
        decreases names.len() - i,
    {
        let key = match &names[i] {
            Some(s) => s.clone(),
            None => "Regular".to_owned(),
        };
        styles_insert(&mut styles, key, i);
        let ghost pre = names@.subrange(0, i as int);
        let ghost post = names@.subrange(0, i + 1);
        assert(post.drop_last() =~= pre);
        assert(post.last() == names@[i as int]);
        i += 1;
    }
    assert(names@.subrange(0, i as int) =~= names@);
    let regular = first_found(find_filed(&styles, Ghost(names@), "Regular"), first_found(find_filed(&styles, Ghost(names@), "Roman"), find_filed(&styles, Ghost(names@), "Book")));
    let r = match regular {
        Some(r) => r,
        None => return None,
    };
    let italic = match first_found(find_filed(&styles, Ghost(names@), "Italic"), find_filed(&styles, Ghost(names@), "Book Italic")) {
        Some(i) => i,
        None => r,
    };
    let bold = match first_found(
        find_filed(&styles, Ghost(names@), "Bold"),
        first_found(find_filed(&styles, Ghost(names@), "Semibold"), first_found(find_filed(&styles, Ghost(names@), "SemiBold"), find_filed(&styles, Ghost(names@), "Medium"))),
    ) {
        Some(b) => b,
        None => r,
    };
    let bold_italic = match first_found(
        find_filed(&styles, Ghost(names@), "Bold Italic"),
        first_found(find_filed(&styles, Ghost(names@), "SemiBold Italic"), find_filed(&styles, Ghost(names@), "Medium Italic")),
    ) {
        Some(b) => b,
        None => italic,
    };
    Some(FamilyFaces { regular: r, italic, bold, bold_italic })
}

} // verus!
