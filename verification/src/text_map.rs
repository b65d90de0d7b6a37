//! A small map from strings to strings that keeps its entries in insertion order.
//!
//! It stands where a `HashMap<String, String>` is handed out (the settings screens
//! read prompt and description texts by name); its order is fixed, so what it holds
//! is stated exactly.
use vstd::prelude::*;

use crate::text::str_eq;

verus! {

broadcast use vstd::string::group_string_axioms;

/// A map from strings to strings, in insertion order, with no key twice.
#[derive(Debug)]
pub struct TextMap {
    entries: Vec<(String, String)>,
}

/// The entries of a list of string pairs.
pub open spec fn pairs_view(v: Seq<(String, String)>) -> Seq<(Seq<char>, Seq<char>)> {
    v.map_values(|e: (String, String)| (e.0@, e.1@))
}

/// No key occurs twice.
pub open spec fn distinct_keys(p: Seq<(Seq<char>, Seq<char>)>) -> bool {
    forall|i: int, j: int| 0 <= i < j < p.len() ==> (#[trigger] p[i]).0 != (#[trigger] p[j]).0
}

/// The position of key `k`, if it is there.
pub open spec fn key_position(p: Seq<(Seq<char>, Seq<char>)>, k: Seq<char>) -> Option<int> {
    if exists|i: int| 0 <= i < p.len() && (#[trigger] p[i]).0 == k {
        Some(choose|i: int| 0 <= i < p.len() && (#[trigger] p[i]).0 == k)
    } else {
        None
    }
}

/// The value stored under key `k`, if any.
pub open spec fn lookup(p: Seq<(Seq<char>, Seq<char>)>, k: Seq<char>) -> Option<Seq<char>> {
    match key_position(p, k) {
        Some(i) => Some(p[i].1),
        None => None,
    }
}

impl TextMap {
    /// The entries, in insertion order.
    pub closed spec fn pairs(&self) -> Seq<(Seq<char>, Seq<char>)> {
        pairs_view(self.entries@)
    }

    /// No key occurs twice.
    #[verifier::type_invariant]
    spec fn wf(&self) -> bool {
        distinct_keys(pairs_view(self.entries@))
    }

    /// An empty map.
    pub fn new() -> (r: Self)
        ensures
            r.pairs() == Seq::<(Seq<char>, Seq<char>)>::empty(),
    {
        let r = TextMap { entries: Vec::new() };
        assert(r.pairs() =~= Seq::<(Seq<char>, Seq<char>)>::empty());
        r
    }

    /// The position of a key.
    fn find(&self, k: &str) -> (r: Option<usize>)
        ensures
            r matches Some(i) ==> i < self.pairs().len() && self.pairs()[i as int].0 == k@,
            r is None ==> forall|i: int| 0 <= i < self.pairs().len() ==> (#[trigger] self.pairs()[i]).0 != k@,
    {
        let ghost p = self.pairs();
        let mut i: usize = 0;
        while i < self.entries.len()
            invariant
                i <= self.entries@.len(),
                p == self.pairs(),
                p.len() == self.entries@.len(),
                forall|j: int| 0 <= j < i ==> (#[trigger] p[j]).0 != k@,
            decreases self.entries@.len() - i,
        {
            if str_eq(self.entries[i].0.as_str(), k) {
                assert(p[i as int].0 == k@);
                return Some(i);
            }
            i = i + 1;
        }
        None
    }

    /// Stores `v` under `k`: replaces the value of a present key in place, or adds
    /// the pair at the end.
    pub fn insert(&mut self, k: String, v: String)
        ensures
            distinct_keys(final(self).pairs()),
            key_position(old(self).pairs(), k@) matches Some(i) ==> final(self).pairs() == old(
                self,
            ).pairs().update(i, (k@, v@)),
            key_position(old(self).pairs(), k@) is None ==> final(self).pairs() == old(
                self,
            ).pairs().push((k@, v@)),
    {
        proof {
            use_type_invariant(&*self);
        }
        let ghost p = self.pairs();
        match self.find(k.as_str()) {
            Some(i) => {
                proof {
                    let c = choose|j: int| 0 <= j < p.len() && (#[trigger] p[j]).0 == k@;
                    assert(p[i as int].0 == k@);
                    if c != i {
                        if c < i {
                            assert(p[c].0 != p[i as int].0);
                        } else {
                            assert(p[i as int].0 != p[c].0);
                        }
                    }
                }
                let ghost q = p.update(i as int, (k@, v@));
                assert forall|a: int, b: int| 0 <= a < b < q.len() implies (#[trigger] q[a]).0
                    != (#[trigger] q[b]).0 by {
                    if a != i && b != i {
                        assert(q[a] == p[a] && q[b] == p[b]);
                    } else if a == i {
                        assert(q[b] == p[b]);
                        assert(p[i as int].0 != p[b].0);
                    } else {
                        assert(q[a] == p[a]);
                        assert(p[a].0 != p[i as int].0);
                    }
                }
                let mut entries: Vec<(String, String)> = Vec::new();
                std::mem::swap(&mut entries, &mut self.entries);
                entries.set(i, (k, v));
                assert(pairs_view(entries@) =~= q);
                self.entries = entries;
            },
            None => {
                let ghost q = p.push((k@, v@));
                assert forall|a: int, b: int| 0 <= a < b < q.len() implies (#[trigger] q[a]).0
                    != (#[trigger] q[b]).0 by {
                    if b < p.len() {
                        assert(q[a] == p[a] && q[b] == p[b]);
                    } else {
                        assert(q[a] == p[a]);
                    }
                }
                let mut entries: Vec<(String, String)> = Vec::new();
                std::mem::swap(&mut entries, &mut self.entries);
                entries.push((k, v));
                assert(pairs_view(entries@) =~= q);
                self.entries = entries;
            },
        }
    }

    /// Whether `k` is a key.
    pub fn contains_key(&self, k: &str) -> (r: bool)
        ensures
            r == (lookup(self.pairs(), k@) is Some),
    {
        let r = self.find(k);
        proof {
            if let Some(i) = r {
                assert(self.pairs()[i as int].0 == k@);
            }
        }
        r.is_some()
    }

    /// The value stored under `k`.
    pub fn get(&self, k: &str) -> (r: Option<&String>)
        ensures
            match r {
                Some(s) => lookup(self.pairs(), k@) == Some(s@),
                None => lookup(self.pairs(), k@) is None,
            },
    {
        proof {
            use_type_invariant(self);
        }
        match self.find(k) {
            Some(i) => {
                proof {
                    let p = self.pairs();
                    let c = choose|j: int| 0 <= j < p.len() && (#[trigger] p[j]).0 == k@;
                    assert(p[i as int].0 == k@);
                    if c != i {
                        if c < i {
                            assert(p[c].0 != p[i as int].0);
                        } else {
                            assert(p[i as int].0 != p[c].0);
                        }
                    }
                }
                Some(&self.entries[i].1)
            },
            None => None,
        }
    }

    /// The number of entries.
    pub fn len(&self) -> (r: usize)
        ensures
            r == self.pairs().len(),
    {
        self.entries.len()
    }

    /// The entries, in insertion order.
    pub fn entries(&self) -> (r: &Vec<(String, String)>)
        ensures
            pairs_view(r@) == self.pairs(),
            distinct_keys(self.pairs()),
    {
        proof {
            use_type_invariant(self);
        }
        &self.entries
    }
}

/// What one insert then one lookup give: the value just stored, whatever was there.
pub proof fn law_get_after_insert(
    before: Seq<(Seq<char>, Seq<char>)>,
    after: Seq<(Seq<char>, Seq<char>)>,
    k: Seq<char>,
    v: Seq<char>,
)
    requires
        distinct_keys(before),
        distinct_keys(after),
        key_position(before, k) matches Some(i) ==> after == before.update(i, (k, v)),
        key_position(before, k) is None ==> after == before.push((k, v)),
    ensures
        lookup(after, k) == Some(v),
{
    let i = match key_position(before, k) {
        Some(i) => i,
        None => before.len() as int,
    };
    assert(after[i].0 == k);
    let c = choose|j: int| 0 <= j < after.len() && (#[trigger] after[j]).0 == k;
    if c != i {
        if c < i {
            assert(after[c].0 != after[i].0);
        } else {
            assert(after[i].0 != after[c].0);
        }
    }
}

/// An insert leaves every other key as it was.
pub proof fn law_insert_keeps_other_keys(
    before: Seq<(Seq<char>, Seq<char>)>,
    after: Seq<(Seq<char>, Seq<char>)>,
    k: Seq<char>,
    v: Seq<char>,
    other: Seq<char>,
)
    requires
        distinct_keys(before),
        distinct_keys(after),
        key_position(before, k) matches Some(i) ==> after == before.update(i, (k, v)),
        key_position(before, k) is None ==> after == before.push((k, v)),
        other != k,
    ensures
        lookup(after, other) == lookup(before, other),
{
    if exists|j: int| 0 <= j < before.len() && (#[trigger] before[j]).0 == other {
        let j = choose|j: int| 0 <= j < before.len() && (#[trigger] before[j]).0 == other;
        assert(after[j] == before[j]);
        let c = choose|c: int| 0 <= c < after.len() && (#[trigger] after[c]).0 == other;
        if c != j {
            if c < j {
                assert(after[c].0 != after[j].0);
            } else {
                assert(after[j].0 != after[c].0);
            }
        }
    } else {
        assert forall|c: int| 0 <= c < after.len() implies (#[trigger] after[c]).0 != other by {
            if c < before.len() {
                match key_position(before, k) {
                    Some(i) => {
                        if c != i {
                            assert(after[c] == before[c]);
                        }
                    },
                    None => {
                        assert(after[c] == before[c]);
                    },
                }
            }
        }
    }
}

} // verus!
