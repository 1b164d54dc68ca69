use vstd::prelude::*;

verus! {

/// One element of a byte pattern.
#[derive(Clone, Copy, Debug, PartialEq, Eq, Structural)]
pub enum Atom {
    /// A byte that must hold exactly this value.
    Byte(u8),
    /// One byte of any value.
    Any,
    /// A run of this many bytes of any value.
    Skip(usize),
    /// Records the address of the byte that follows; takes up no bytes.
    Save,
}

/// Number of image bytes an atom spans.
pub open spec fn atom_width(a: Atom) -> nat {
    match a {
        Atom::Byte(_) => 1,
        Atom::Any => 1,
        Atom::Skip(n) => n as nat,
        Atom::Save => 0,
    }
}

/// Number of image bytes a whole pattern spans.
pub open spec fn pattern_width(p: Seq<Atom>) -> nat
    decreases p.len(),
{
    if p.len() == 0 {
        0
    } else {
        pattern_width(p.drop_last()) + atom_width(p.last())
    }
}

/// Distance from the start of a match to the byte that atom `k` covers.
pub open spec fn atom_offset(p: Seq<Atom>, k: int) -> nat {
    pattern_width(p.take(k))
}

/// The pattern sits at `pos` and ends no later than `hi`: every fixed byte
/// agrees with the image.
pub open spec fn matches_at(img: Seq<u8>, hi: int, p: Seq<Atom>, pos: int) -> bool {
    &&& 0 <= pos
    &&& pos + pattern_width(p) <= hi
    &&& hi <= img.len()
    &&& forall|k: int|
        0 <= k < p.len() ==> match #[trigger] p[k] {
            Atom::Byte(b) => img[pos + atom_offset(p, k)] == b,
            _ => true,
        }
}

/// The addresses recorded by the capture markers of `p` matched at `pos`, in
/// pattern order.
pub open spec fn captures(p: Seq<Atom>, pos: int) -> Seq<int>
    decreases p.len(),
{
    if p.len() == 0 {
        Seq::empty()
    } else {
        let head = captures(p.drop_last(), pos);
        match p.last() {
            Atom::Save => head.push(pos + pattern_width(p.drop_last())),
            _ => head,
        }
    }
}

/// `pos` is the lowest position in `[lo, hi]` at which the pattern matches.
pub open spec fn is_first_match(img: Seq<u8>, lo: int, hi: int, p: Seq<Atom>, pos: int) -> bool {
    &&& lo <= pos
    &&& matches_at(img, hi, p, pos)
    &&& forall|q: int| lo <= q < pos ==> !matches_at(img, hi, p, q)
}

/// What a scan of `img[lo..hi]` for `p` yields: the captures of the first
/// match, or nothing when the pattern occurs nowhere in the window.
pub open spec fn find_spec(img: Seq<u8>, lo: int, hi: int, p: Seq<Atom>) -> Option<Seq<int>> {
    if exists|pos: int| is_first_match(img, lo, hi, p, pos) {
        Some(captures(p, choose|pos: int| is_first_match(img, lo, hi, p, pos)))
    } else {
        None
    }
}

pub open spec fn as_ints(v: Seq<u32>) -> Seq<int> {
    v.map_values(|x: u32| x as int)
}

proof fn lemma_first_match_unique(img: Seq<u8>, lo: int, hi: int, p: Seq<Atom>, a: int, b: int)
    requires
        is_first_match(img, lo, hi, p, a),
        is_first_match(img, lo, hi, p, b),
    ensures
        a == b,
{
}

proof fn lemma_take_step(p: Seq<Atom>, k: int)
    requires
        0 <= k < p.len(),
    ensures
        p.take(k + 1).drop_last() == p.take(k),
        p.take(k + 1).last() == p[k],
        atom_offset(p, k + 1) == atom_offset(p, k) + atom_width(p[k]),
{
    assert(p.take(k + 1).drop_last() =~= p.take(k));
}

/// Tries the pattern at `pos`, within a window ending at `hi`; on a match
/// returns the captured addresses.
pub fn match_at(img: &[u8], hi: usize, p: &[Atom], pos: usize) -> (r: Option<Vec<u32>>)
    requires
        hi <= img@.len(),
        img@.len() <= u32::MAX,
    ensures
        match r {
            Some(c) => matches_at(img@, hi as int, p@, pos as int) && as_ints(c@) == captures(
                p@,
                pos as int,
            ),
            None => !matches_at(img@, hi as int, p@, pos as int),
        },
{
    if pos > hi {
        return None;
    }
    let mut cur: usize = pos;
    let mut caps: Vec<u32> = Vec::new();
    let mut k: usize = 0;
    while k < p.len()
        invariant
            hi <= img@.len() <= u32::MAX,
            pos <= cur <= hi,
            0 <= k <= p@.len(),
            cur == pos + atom_offset(p@, k as int),
            as_ints(caps@) == captures(p@.take(k as int), pos as int),
            forall|j: int|
                0 <= j < k ==> match #[trigger] p@[j] {
                    Atom::Byte(b) => img@[pos + atom_offset(p@, j)] == b,
                    _ => true,
                },
        decreases p@.len() - k,
    {
        proof {
            lemma_take_step(p@, k as int);
        }
        let a = p[k];
        match a {
            Atom::Byte(b) => {
                if cur >= hi || img[cur] != b {
                    proof {
                        if matches_at(img@, hi as int, p@, pos as int) {
                            lemma_width_prefix(p@, k as int + 1);
                        }
                    }
                    return None;
                }
                cur = cur + 1;
            },
            Atom::Any => {
                if cur >= hi {
                    proof {
                        if matches_at(img@, hi as int, p@, pos as int) {
                            lemma_width_prefix(p@, k as int + 1);
                        }
                    }
                    return None;
                }
                cur = cur + 1;
            },
            Atom::Skip(n) => {
                if n > hi - cur {
                    proof {
                        if matches_at(img@, hi as int, p@, pos as int) {
                            lemma_width_prefix(p@, k as int + 1);
                        }
                    }
                    return None;
                }
                cur = cur + n;
            },
            Atom::Save => {
                caps.push(cur as u32);
            },
        }
        proof {
            assert(as_ints(caps@) =~= captures(p@.take(k + 1), pos as int));
        }
        k = k + 1;
    }
    proof {
        assert(p@.take(k as int) =~= p@);
    }
    Some(caps)
}

/// The width of a prefix never exceeds the width of the whole pattern.
proof fn lemma_width_prefix(p: Seq<Atom>, k: int)
    requires
        0 <= k <= p.len(),
    ensures
        pattern_width(p.take(k)) <= pattern_width(p),
    decreases p.len() - k,
{
    if k < p.len() {
        lemma_take_step(p, k);
        lemma_width_prefix(p, k + 1);
    } else {
        assert(p.take(k) =~= p);
    }
}

/// Scans `img[lo..hi]` left to right and returns the captures of the first
/// position at which the pattern matches, or `None` when it matches nowhere.
pub fn find(img: &[u8], lo: usize, hi: usize, p: &[Atom]) -> (r: Option<Vec<u32>>)
    requires
        hi <= img@.len(),
        img@.len() <= u32::MAX,
    ensures
        match r {
            Some(c) => find_spec(img@, lo as int, hi as int, p@) == Some(as_ints(c@)),
            None => find_spec(img@, lo as int, hi as int, p@).is_none(),
        },
{
    if lo > hi {
        proof {
            assert forall|pos: int| !is_first_match(img@, lo as int, hi as int, p@, pos) by {
                if is_first_match(img@, lo as int, hi as int, p@, pos) {
                    assert(pos <= hi);
                }
            }
        }
        return None;
    }
    let mut pos: usize = lo;
    loop
        invariant
            hi <= img@.len() <= u32::MAX,
            lo <= pos <= hi,
            forall|q: int| lo <= q < pos ==> !matches_at(img@, hi as int, p@, q),
        decreases hi - pos,
    {
        match match_at(img, hi, p, pos) {
            Some(c) => {
                proof {
                    let w = choose|x: int| is_first_match(img@, lo as int, hi as int, p@, x);
                    assert(is_first_match(img@, lo as int, hi as int, p@, pos as int));
                    lemma_first_match_unique(img@, lo as int, hi as int, p@, w, pos as int);
                }
                return Some(c);
            },
            None => {},
        }
        if pos == hi {
            proof {
                assert forall|x: int| !is_first_match(img@, lo as int, hi as int, p@, x) by {
                    if is_first_match(img@, lo as int, hi as int, p@, x) {
                        assert(x <= hi);
                    }
                }
            }
            return None;
        }
        pos = pos + 1;
    }
}

} // verus!
