use vstd::prelude::*;
use crate::image::{read_value, read_value_at, Reading};
use crate::pattern::{as_ints, atom_offset, find, find_spec, is_first_match, matches_at, pattern_width, captures, Atom};
use crate::table::{table_insert, OffsetTable};

verus! {

/// A secondary signature whose value is recorded relative to the RVA that its
/// anchor entry resolved to.
pub struct Derivation {
    pub name: String,
    pub pattern: Vec<Atom>,
    /// Which capture of the pattern is read.
    pub slot: usize,
    pub reading: Reading,
}

/// One registered signature of a module.
pub struct PatternEntry {
    pub name: String,
    pub pattern: Vec<Atom>,
    /// Which capture of the pattern gives the entry's address.
    pub slot: usize,
    pub reading: Reading,
    pub derive: Option<Derivation>,
}

/// What resolving one module produced: the offsets found, and the names of
/// the entries whose signature matched nowhere.
pub struct Resolution {
    pub offsets: OffsetTable,
    pub stale: Vec<String>,
}

pub open spec fn names(v: Seq<String>) -> Seq<Seq<char>> {
    v.map_values(|s: String| s@)
}

/// The value a signature yields in the window `[lo, hi)` of `img`: its
/// first match, the chosen capture of that match, and the reading applied to
/// it.
pub open spec fn entry_value(img: Seq<u8>, lo: int, hi: int, p: Seq<Atom>, slot: int, r: Reading) -> Option<u32> {
    match find_spec(img, lo, hi, p) {
        Some(c) => if 0 <= slot < c.len() {
            read_value(img, c[slot], r)
        } else {
            None
        },
        None => None,
    }
}

/// Offsets and stale names after one more entry. A derivation runs only when
/// its anchor resolved to an address inside the image; what it finds is added
/// to the anchor's RVA, and nothing is recorded when it finds nothing or the
/// sum leaves 32 bits.
pub open spec fn step_spec(
    img: Seq<u8>,
    lo: int,
    hi: int,
    acc: (Seq<(Seq<char>, u32)>, Seq<Seq<char>>),
    e: PatternEntry,
) -> (Seq<(Seq<char>, u32)>, Seq<Seq<char>>) {
    match entry_value(img, lo, hi, e.pattern@, e.slot as int, e.reading) {
        None => (acc.0, acc.1.push(e.name@)),
        Some(rva) => {
            let t = table_insert(acc.0, e.name@, rva);
            match e.derive {
                Some(d) => if rva < img.len() {
                    match entry_value(img, lo, hi, d.pattern@, d.slot as int, d.reading) {
                        Some(v) => if rva + v <= u32::MAX {
                            (table_insert(t, d.name@, (rva + v) as u32), acc.1)
                        } else {
                            (t, acc.1)
                        },
                        None => (t, acc.1),
                    }
                } else {
                    (t, acc.1)
                },
                None => (t, acc.1),
            }
        },
    }
}

/// Offsets and stale names after the entries `es`, taken in order.
pub open spec fn resolve_spec(img: Seq<u8>, lo: int, hi: int, es: Seq<PatternEntry>) -> (
    Seq<(Seq<char>, u32)>,
    Seq<Seq<char>>,
)
    decreases es.len(),
{
    if es.len() == 0 {
        (Seq::empty(), Seq::empty())
    } else {
        step_spec(img, lo, hi, resolve_spec(img, lo, hi, es.drop_last()), es.last())
    }
}

/// `r` is what resolving `es` against the window `[lo, hi)` of `img` gives.
pub open spec fn is_resolution_of(r: Resolution, img: Seq<u8>, lo: int, hi: int, es: Seq<PatternEntry>) -> bool {
    &&& r.offsets.wf()
    &&& (r.offsets@, names(r.stale@)) == resolve_spec(img, lo, hi, es)
}

fn entry_value_of(img: &[u8], lo: usize, hi: usize, p: &Vec<Atom>, slot: usize, r: Reading) -> (v: Option<u32>)
    requires
        hi <= img@.len() <= u32::MAX,
    ensures
        v == entry_value(img@, lo as int, hi as int, p@, slot as int, r),
{
    match find(img, lo, hi, p.as_slice()) {
        Some(c) => {
            if slot < c.len() {
                proof {
                    assert(as_ints(c@)[slot as int] == c@[slot as int] as int);
                }
                read_value_at(img, c[slot], r)
            } else {
                None
            }
        },
        None => None,
    }
}

/// Runs every entry against the window `[lo, hi)` of a module image, in
/// registration order. An entry whose signature matches nowhere is listed as
/// stale and the others go on; an entry resolved again later takes its
/// later value.
pub fn resolve(img: &[u8], lo: usize, hi: usize, entries: &Vec<PatternEntry>) -> (r: Resolution)
    requires
        hi <= img@.len() <= u32::MAX,
    ensures
        is_resolution_of(r, img@, lo as int, hi as int, entries@),
{
    let mut offsets = OffsetTable::new();
    let mut stale: Vec<String> = Vec::new();
    let mut i: usize = 0;
    while i < entries.len()
        invariant
            hi <= img@.len() <= u32::MAX,
            0 <= i <= entries@.len(),
            offsets.wf(),
            (offsets@, names(stale@)) == resolve_spec(img@, lo as int, hi as int, entries@.take(i as int)),
        decreases entries@.len() - i,
    {
        proof {
            assert(entries@.take(i + 1).drop_last() =~= entries@.take(i as int));
            assert(entries@.take(i + 1).last() == entries@[i as int]);
        }
        let e = &entries[i];
        match entry_value_of(img, lo, hi, &e.pattern, e.slot, e.reading) {
            None => {
                stale.push(e.name.clone());
                proof {
                    assert(names(stale@) =~= names(stale@.drop_last()).push(e.name@));
                }
            },
            Some(rva) => {
                offsets.insert(e.name.clone(), rva);
                match &e.derive {
                    Some(d) => {
                        if (rva as usize) < img.len() {
                            match entry_value_of(img, lo, hi, &d.pattern, d.slot, d.reading) {
                                Some(v) => {
                                    if v <= u32::MAX - rva {
                                        offsets.insert(d.name.clone(), rva + v);
                                    }
                                },
                                None => {},
                            }
                        }
                    },
                    None => {},
                }
            },
        }
        i = i + 1;
    }
    proof {
        assert(entries@.take(i as int) =~= entries@);
    }
    Resolution { offsets, stale }
}

/// Resolving is a function of the image, the window and the entries alone:
/// two runs on the same input give the same offsets and the same stale
/// names.
pub proof fn resolve_is_idempotent(
    img: Seq<u8>,
    lo: int,
    hi: int,
    es: Seq<PatternEntry>,
    a: Resolution,
    b: Resolution,
)
    requires
        is_resolution_of(a, img, lo, hi, es),
        is_resolution_of(b, img, lo, hi, es),
    ensures
        a.offsets@ == b.offsets@,
        names(a.stale@) == names(b.stale@),
{
}

/// A derivation is never run unless its anchor matched and resolved to an
/// address inside the image: otherwise the entry adds at most its own name.
pub proof fn derivation_needs_anchor(
    img: Seq<u8>,
    lo: int,
    hi: int,
    acc: (Seq<(Seq<char>, u32)>, Seq<Seq<char>>),
    e: PatternEntry,
)
    ensures
        find_spec(img, lo, hi, e.pattern@).is_none() ==> step_spec(img, lo, hi, acc, e).0 == acc.0,
        entry_value(img, lo, hi, e.pattern@, e.slot as int, e.reading).is_none()
            ==> step_spec(img, lo, hi, acc, e).0 == acc.0,
        forall|rva: u32|
            entry_value(img, lo, hi, e.pattern@, e.slot as int, e.reading) == Some(rva) && rva >= img.len()
                ==> step_spec(img, lo, hi, acc, e).0 == table_insert(acc.0, e.name@, rva),
{
}

/// An entry whose signature matches nowhere in the window leaves the offsets
/// as they were and adds its name to the stale names, once.
pub proof fn unmatched_entry_is_stale(
    img: Seq<u8>,
    lo: int,
    hi: int,
    acc: (Seq<(Seq<char>, u32)>, Seq<Seq<char>>),
    e: PatternEntry,
)
    requires
        find_spec(img, lo, hi, e.pattern@).is_none(),
    ensures
        step_spec(img, lo, hi, acc, e) == (acc.0, acc.1.push(e.name@)),
{
}

/// Resolving a single entry whose signature matches nowhere gives no offsets
/// and that entry's name as the one stale name.
pub proof fn lone_unmatched_entry(img: Seq<u8>, lo: int, hi: int, e: PatternEntry)
    requires
        find_spec(img, lo, hi, e.pattern@).is_none(),
    ensures
        resolve_spec(img, lo, hi, seq![e]) == (Seq::<(Seq<char>, u32)>::empty(), seq![e.name@]),
{
    let none = (Seq::<(Seq<char>, u32)>::empty(), Seq::<Seq<char>>::empty());
    assert(seq![e].drop_last() =~= Seq::<PatternEntry>::empty());
    assert(seq![e].last() == e);
    assert(resolve_spec(img, lo, hi, Seq::<PatternEntry>::empty()) == none);
    assert(resolve_spec(img, lo, hi, seq![e]) == step_spec(img, lo, hi, none, e));
    assert(none.1.push(e.name@) =~= seq![e.name@]);
}

/// When the window has exactly the room of one embedding of the pattern and
/// one of its fixed bytes differs there, the scan finds nothing.
pub proof fn mutated_fixed_byte_finds_nothing(img: Seq<u8>, lo: int, hi: int, p: Seq<Atom>, k: int, b: u8)
    requires
        0 <= lo,
        hi <= img.len(),
        hi - lo == pattern_width(p),
        0 <= k < p.len(),
        p[k] == Atom::Byte(b),
        img[lo + atom_offset(p, k)] != b,
    ensures
        find_spec(img, lo, hi, p).is_none(),
{
    assert forall|pos: int| !is_first_match(img, lo, hi, p, pos) by {
        if is_first_match(img, lo, hi, p, pos) {
            assert(pos == lo);
            assert(matches_at(img, hi, p, pos));
            assert(match p[k] {
                Atom::Byte(c) => img[pos + atom_offset(p, k)] == c,
                _ => true,
            });
        }
    }
}

/// When the pattern sits at `pos` inside the window and nowhere else in it,
/// the scan returns the addresses of that embedding's capture markers.
pub proof fn single_embedding_is_captured(img: Seq<u8>, lo: int, hi: int, p: Seq<Atom>, pos: int)
    requires
        lo <= pos,
        matches_at(img, hi, p, pos),
        forall|q: int| lo <= q <= hi && q != pos ==> !matches_at(img, hi, p, q),
    ensures
        find_spec(img, lo, hi, p) == Some(captures(p, pos)),
{
    assert(is_first_match(img, lo, hi, p, pos));
    let w = choose|x: int| is_first_match(img, lo, hi, p, x);
    assert(is_first_match(img, lo, hi, p, w));
    if w != pos {
        assert(w <= hi);
    }
}

} // verus!
