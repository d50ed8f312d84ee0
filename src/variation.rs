//! Variable-font axes: design coordinates from "TAG=NUM" requests, and the
//! lookup of a named instance by its English name.
use vstd::prelude::*;
use vstd::string::StringSliceAdditionalSpecFns;
use crate::script::{tag, tag_value};

verus! {

/// A variation axis of a face; values in 16.16 fixed point.
#[derive(Debug, Clone, Copy, PartialEq, Eq, Structural)]
pub struct Axis {
    pub tag: u32,
    pub minimum: i64,
    pub maximum: i64,
    pub default: i64,
}

/// `v` limited to at most `hi`, then to at least `lo`.
pub open spec fn clamp_to(v: int, lo: int, hi: int) -> int {
    let a = if v < hi { v } else { hi };
    if a > lo { a } else { lo }
}

/// The first axis, from `i` on, with the tag.
pub open spec fn axis_from(axes: Seq<Axis>, t: u32, i: int) -> Option<int>
    decreases axes.len() - i,
{
    if i < 0 || i >= axes.len() {
        None
    } else if axes[i].tag == t {
        Some(i)
    } else {
        axis_from(axes, t, i + 1)
    }
}

/// Design coordinates after the requests: each starts at its axis' default;
/// a request sets the first axis with its tag to its value clamped to the
/// axis' range; a request for a tag no axis has changes nothing.
pub open spec fn coords_after(axes: Seq<Axis>, requests: Seq<(u32, i64)>) -> Seq<i64>
    decreases requests.len(),
{
    if requests.len() == 0 {
        axes.map_values(|a: Axis| a.default)
    } else {
        let prev = coords_after(axes, requests.drop_last());
        let (t, v) = requests.last();
        match axis_from(axes, t, 0) {
            Some(i) => prev.update(i, clamp_to(v as int, axes[i].minimum as int, axes[i].maximum as int) as i64),
            None => prev,
        }
    }
}

/// The axis tag of a "TAG=NUM" request: its first four bytes, or `None` if it is shorter.
pub fn variation_tag(request: &str) -> (r: Option<u32>)
    ensures
        request.spec_bytes().len() < 4 ==> r is None,
        request.spec_bytes().len() >= 4 ==> r is Some && r->0 as int == tag_value(
            request.spec_bytes()[0],
            request.spec_bytes()[1],
            request.spec_bytes()[2],
            request.spec_bytes()[3],
        ),
{
    let b = request.as_bytes();
    if b.len() < 4 {
        None
    } else {
        Some(tag(b[0], b[1], b[2], b[3]))
    }
}

fn find_axis(axes: &Vec<Axis>, t: u32) -> (r: Option<usize>)
    ensures
        match r {
            Some(i) => axis_from(axes@, t, 0) == Some(i as int),
            None => axis_from(axes@, t, 0) is None,
        },
{
    let mut i: usize = 0;
    while i < axes.len()
        invariant
            i <= axes@.len(),
            axis_from(axes@, t, 0) == axis_from(axes@, t, i as int),
        decreases axes.len() - i,
    {
        if axes[i].tag == t {
            return Some(i);
        }
        i += 1;
    }
    None
}

/// Design coordinates for a face with these axes after the requests, as
/// (tag, 16.16 value) pairs (see `coords_after`).
pub fn variation_coords(axes: &Vec<Axis>, requests: &Vec<(u32, i64)>) -> (r: Vec<i64>)
    ensures
        r@ == coords_after(axes@, requests@),
{
    let mut coords: Vec<i64> = Vec::new();
    let mut i: usize = 0;
    while i < axes.len()
        invariant
            i <= axes@.len(),
            coords@ == axes@.subrange(0, i as int).map_values(|a: Axis| a.default),
        decreases axes.len() - i,
    {
        coords.push(axes[i].default);
        i += 1;
        assert(coords@ =~= axes@.subrange(0, i as int).map_values(|a: Axis| a.default));
    }
    assert(axes@.subrange(0, i as int) =~= axes@);
    assert(requests@.subrange(0, 0) =~= Seq::<(u32, i64)>::empty());
    let mut k: usize = 0;
    while k < requests.len()
        invariant
            k <= requests@.len(),
            coords@ == coords_after(axes@, requests@.subrange(0, k as int)),
            coords@.len() == axes@.len(),
        decreases requests.len() - k,
    {
        let (t, v) = requests[k];
        let ghost pre = requests@.subrange(0, k as int);
        let ghost post = requests@.subrange(0, k + 1);
        assert(post.drop_last() =~= pre);
        match find_axis(axes, t) {
            Some(i) => {
                proof {
                    lemma_axis_from_in_range(axes@, t, 0);
                }
                let a = axes[i];
                let lowered = if v < a.maximum { v } else { a.maximum };
                let clamped = if lowered > a.minimum { lowered } else { a.minimum };
                coords.set(i, clamped);
            },
            None => {},
        }
        k += 1;
    }
    assert(requests@.subrange(0, k as int) =~= requests@);
    coords
}

proof fn lemma_axis_from_in_range(axes: Seq<Axis>, t: u32, i: int)
    requires
        0 <= i,
    ensures
        match axis_from(axes, t, i) {
            Some(j) => i <= j < axes.len() && axes[j].tag == t,
            None => true,
        },
    decreases axes.len() - i,
{
    if i < axes.len() && axes[i].tag != t {
        lemma_axis_from_in_range(axes, t, i + 1);
    }
}

pub const PLATFORM_MICROSOFT: u16 = 3;

pub const MS_ID_UNICODE_CS: u16 = 1;

pub const MS_LANGID_ENGLISH_UNITED_STATES: u16 = 0x0409;

/// An entry of a face's name table.
#[derive(Debug, Clone)]
pub struct NameEntry {
    pub name_id: u16,
    pub platform_id: u16,
    pub encoding_id: u16,
    pub language_id: u16,
    pub text: Vec<u8>,
}

/// Every second byte, starting with the second: ASCII stored as UTF-16BE, decoded.
pub open spec fn odd_bytes(t: Seq<u8>) -> Seq<u8> {
    Seq::new(t.len() / 2, |i: int| t[2 * i + 1])
}

pub open spec fn ascii_lower(b: u8) -> u8 {
    if 65 <= b <= 90 {
        (b + 32) as u8
    } else {
        b
    }
}

/// Equal once ASCII letters are folded to lower case.
pub open spec fn same_ignoring_ascii_case(a: Seq<u8>, b: Seq<u8>) -> bool {
    a.len() == b.len() && forall|i: int| 0 <= i < a.len() ==> ascii_lower(#[trigger] a[i]) == ascii_lower(b[i])
}

/// The entry is the US-English Unicode name with this id, and it spells `name`
/// up to ASCII case. (Bytes equal to valid UTF-8 up to ASCII case are valid
/// UTF-8 themselves, so the decoded text needs no separate check.)
pub open spec fn names_instance(e: NameEntry, strid: u16, name: Seq<u8>) -> bool {
    &&& e.name_id == strid
    &&& e.platform_id == PLATFORM_MICROSOFT
    &&& e.encoding_id == MS_ID_UNICODE_CS
    &&& e.language_id == MS_LANGID_ENGLISH_UNITED_STATES
    &&& same_ignoring_ascii_case(odd_bytes(e.text@), name)
}

/// Some entry names the instance whose name id is `strid` as `name`.
pub open spec fn instance_named(entries: Seq<NameEntry>, strid: u16, name: Seq<u8>) -> bool {
    exists|j: int| 0 <= j < entries.len() && names_instance(#[trigger] entries[j], strid, name)
}

/// Decodes a name stored as UTF-16BE ASCII by keeping every second byte.
pub fn decode_name(text: &Vec<u8>) -> (r: Vec<u8>)
    ensures
        r@ == odd_bytes(text@),
{
    let mut r: Vec<u8> = Vec::new();
    let len = text.len();
    let n = len / 2;
    let mut i: usize = 0;
    while i < n
        invariant
            len == text@.len(),
            n == len / 2,
            i <= n,
            r@ == odd_bytes(text@).subrange(0, i as int),
        decreases n - i,
    {
        assert(2 * i + 1 < text@.len());
        r.push(text[2 * i + 1]);
        i += 1;
        assert(r@ =~= odd_bytes(text@).subrange(0, i as int));
    }
    assert(odd_bytes(text@).subrange(0, n as int) =~= odd_bytes(text@));
    r
}

fn lower_byte(b: u8) -> (r: u8)
    ensures
        r == ascii_lower(b),
{
    if 65 <= b && b <= 90 {
        b + 32
    } else {
        b
    }
}

/// Compares two byte strings, ignoring ASCII case.
pub fn eq_ignore_ascii_case(a: &[u8], b: &[u8]) -> (r: bool)
    ensures
        r == same_ignoring_ascii_case(a@, b@),
{
    if a.len() != b.len() {
        return false;
    }
    let mut i: usize = 0;
    while i < a.len()
        invariant
            a@.len() == b@.len(),
            i <= a@.len(),
            forall|j: int| 0 <= j < i ==> ascii_lower(#[trigger] a@[j]) == ascii_lower(b@[j]),
        decreases a.len() - i,
    {
        if lower_byte(a[i]) != lower_byte(b[i]) {
            return false;
        }
        i += 1;
    }
    true
}

fn entry_names(e: &NameEntry, strid: u16, name: &[u8]) -> (r: bool)
    ensures
        r == names_instance(*e, strid, name@),
{
    if e.name_id != strid || e.platform_id != PLATFORM_MICROSOFT || e.encoding_id != MS_ID_UNICODE_CS
        || e.language_id != MS_LANGID_ENGLISH_UNITED_STATES {
        return false;
    }
    let decoded = decode_name(&e.text);
    eq_ignore_ascii_case(decoded.as_slice(), name)
}

/// The first named instance (by position in `strids`, the name id of each)
/// that some name-table entry names as `name`, up to ASCII case.
pub fn find_named_instance(name: &str, strids: &Vec<u16>, entries: &Vec<NameEntry>) -> (r: Option<usize>)
    ensures
        match r {
            Some(i) => {
                &&& i < strids@.len()
                &&& instance_named(entries@, strids@[i as int], name.spec_bytes())
                &&& forall|k: int| 0 <= k < i ==> !instance_named(entries@, #[trigger] strids@[k], name.spec_bytes())
            },
            None => forall|k: int| 0 <= k < strids@.len() ==> !instance_named(entries@, #[trigger] strids@[k], name.spec_bytes()),
        },
{
    let bytes = name.as_bytes();
    let mut i: usize = 0;
    while i < strids.len()
        invariant
            bytes@ == name.spec_bytes(),
            i <= strids@.len(),
            forall|k: int| 0 <= k < i ==> !instance_named(entries@, #[trigger] strids@[k], name.spec_bytes()),
        decreases strids.len() - i,
    {
        let mut j: usize = 0;
        while j < entries.len()
            invariant
                bytes@ == name.spec_bytes(),
                i < strids@.len(),
                j <= entries@.len(),
                forall|k: int| 0 <= k < i ==> !instance_named(entries@, #[trigger] strids@[k], name.spec_bytes()),
                forall|m: int| 0 <= m < j ==> !names_instance(#[trigger] entries@[m], strids@[i as int], name.spec_bytes()),
            decreases entries.len() - j,
        {
            if entry_names(&entries[j], strids[i], bytes) {
                assert(names_instance(entries@[j as int], strids@[i as int], name.spec_bytes()));
                return Some(i);
            }
            j += 1;
        }
        i += 1;
    }
    None
}

} // verus!
