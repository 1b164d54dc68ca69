use vstd::prelude::*;

verus! {

/// Names are unique within a table.
pub open spec fn keys_unique(t: Seq<(Seq<char>, u32)>) -> bool {
    forall|i: int, j: int|
        0 <= i < t.len() && 0 <= j < t.len() && i != j ==> #[trigger] t[i].0 != #[trigger] t[j].0
}

pub open spec fn has_key(t: Seq<(Seq<char>, u32)>, k: Seq<char>) -> bool {
    exists|i: int| 0 <= i < t.len() && #[trigger] t[i].0 == k
}

/// Sets `k` to `v`: an existing entry keeps its place and takes the new
/// value; a new name goes to the end.
pub open spec fn table_insert(t: Seq<(Seq<char>, u32)>, k: Seq<char>, v: u32) -> Seq<(Seq<char>, u32)> {
    if has_key(t, k) {
        t.update(choose|i: int| 0 <= i < t.len() && #[trigger] t[i].0 == k, (k, v))
    } else {
        t.push((k, v))
    }
}

/// Mapping from symbolic name to RVA, in insertion order.
pub struct OffsetTable {
    entries: Vec<(String, u32)>,
}

impl View for OffsetTable {
    type V = Seq<(Seq<char>, u32)>;

    closed spec fn view(&self) -> Seq<(Seq<char>, u32)> {
        self.entries@.map_values(|e: (String, u32)| (e.0@, e.1))
    }
}

impl OffsetTable {
    pub closed spec fn wf(&self) -> bool {
        keys_unique(self@)
    }

    pub fn new() -> (r: OffsetTable)
        ensures
            r.wf(),
            r@ == Seq::<(Seq<char>, u32)>::empty(),
    {
        let r = OffsetTable { entries: Vec::new() };
        proof {
            assert(r@ =~= Seq::<(Seq<char>, u32)>::empty());
        }
        r
    }

    pub fn len(&self) -> (r: usize)
        ensures
            r == self@.len(),
    {
        self.entries.len()
    }

    /// The name and RVA at position `i`.
    pub fn entry(&self, i: usize) -> (r: (&str, u32))
        requires
            i < self@.len(),
        ensures
            r.0@ == self@[i as int].0,
            r.1 == self@[i as int].1,
    {
        (self.entries[i].0.as_str(), self.entries[i].1)
    }

    /// The RVA recorded under `name`, if any.
    pub fn get(&self, name: &String) -> (r: Option<u32>)
        requires
            self.wf(),
        ensures
            match r {
                Some(v) => exists|i: int|
                    0 <= i < self@.len() && #[trigger] self@[i] == (name@, v),
                None => !has_key(self@, name@),
            },
    {
        let mut i: usize = 0;
        while i < self.entries.len()
            invariant
                0 <= i <= self@.len(),
                self@.len() == self.entries@.len(),
                forall|j: int| 0 <= j < i ==> self@[j].0 != name@,
            decreases self.entries@.len() - i,
        {
            let same = self.entries[i].0 == *name;
            proof {
                assert(self@[i as int] == (self.entries@[i as int].0@, self.entries@[i as int].1));
            }
            if same {
                return Some(self.entries[i].1);
            }
            i = i + 1;
        }
        None
    }

    /// Sets `name` to `v`; a name already present keeps its place and the
    /// later value wins.
    pub fn insert(&mut self, name: String, v: u32)
        requires
            old(self).wf(),
        ensures
            final(self).wf(),
            final(self)@ == table_insert(old(self)@, name@, v),
    {
        let ghost t = self@;
        let ghost k = name@;
        let mut i: usize = 0;
        while i < self.entries.len()
            invariant
                0 <= i <= self@.len(),
                self@ == t,
                t == old(self)@,
                k == name@,
                keys_unique(t),
                self@.len() == self.entries@.len(),
                forall|j: int| 0 <= j < i ==> t[j].0 != name@,
            decreases self.entries@.len() - i,
        {
            let same = self.entries[i].0 == name;
            proof {
                assert(t[i as int] == (self.entries@[i as int].0@, self.entries@[i as int].1));
            }
            if same {
                proof {
                    assert(t[i as int].0 == k);
                    assert(has_key(t, k));
                    let c = choose|j: int| 0 <= j < t.len() && #[trigger] t[j].0 == k;
                    assert(t[c].0 == k);
                    assert(c == i);
                }
                self.entries.set(i, (name, v));
                proof {
                    assert(self@ =~= t.update(i as int, (k, v)));
                    assert(table_insert(t, k, v) == t.update(i as int, (k, v)));
                }
                return;
            }
            i = i + 1;
        }
        self.entries.push((name, v));
        proof {
            assert(self@ =~= t.push((name@, v)));
        }
    }
}

} // verus!
