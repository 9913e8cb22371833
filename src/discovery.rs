//! Choosing which event devices to read.
//!
//! Links in two directories often lead to the same device; each canonical
//! device path is read once.

use vstd::prelude::*;

verus! {

/// The paths in order of their first occurrence, each once: a list of paths
/// seen so far, checked one candidate after another.
pub open spec fn first_occurrences(s: Seq<Seq<char>>) -> Seq<Seq<char>>
    decreases s.len(),
{
    if s.len() == 0 {
        Seq::empty()
    } else {
        let seen = first_occurrences(s.drop_last());
        if seen.contains(s.last()) {
            seen
        } else {
            seen.push(s.last())
        }
    }
}

pub open spec fn views(s: Seq<String>) -> Seq<Seq<char>> {
    s.map_values(|p: String| p@)
}

/// The canonical paths of the devices to read, in the order found.
pub struct DeviceSet {
    paths: Vec<String>,
}

impl View for DeviceSet {
    type V = Seq<Seq<char>>;

    closed spec fn view(&self) -> Seq<Seq<char>> {
        views(self.paths@)
    }
}

impl DeviceSet {
    pub fn new() -> (r: DeviceSet)
        ensures
            r@ == Seq::<Seq<char>>::empty(),
    {
        DeviceSet { paths: Vec::new() }
    }

    pub fn contains(&self, path: &String) -> (r: bool)
        ensures
            r == self@.contains(path@),
    {
        let mut i: usize = 0;
        while i < self.paths.len()
            invariant
                i <= self.paths@.len(),
                forall|k: int| 0 <= k < i ==> self.paths@[k]@ != path@,
            decreases self.paths@.len() - i,
        {
            if self.paths[i] == *path {
                assert(self@[i as int] == path@);
                return true;
            }
            i = i + 1;
        }
        assert(!self@.contains(path@)) by {
            if self@.contains(path@) {
                let k = choose|k: int| 0 <= k < self@.len() && self@[k] == path@;
                assert(self.paths@[k]@ == path@);
            }
        }
        false
    }

    /// Adds a canonical device path; `true` when it was not there yet, and a
    /// reader is then owed to it.
    pub fn insert(&mut self, path: String) -> (r: bool)
        ensures
            r == !old(self)@.contains(path@),
            final(self)@ == (if r {
                old(self)@.push(path@)
            } else {
                old(self)@
            }),
    {
        if self.contains(&path) {
            false
        } else {
            self.paths.push(path);
            assert(self@ =~= old(self)@.push(self.paths@.last()@));
            true
        }
    }

    /// The paths, in the order they were inserted.
    pub fn paths(&self) -> (r: &Vec<String>)
        ensures
            views(r@) == self@,
    {
        &self.paths
    }
}

/// Each distinct path among the candidates, once, in order of first
/// occurrence.
pub fn unique_paths(candidates: Vec<String>) -> (r: DeviceSet)
    ensures
        r@ == first_occurrences(views(candidates@)),
{
    let mut set = DeviceSet::new();
    let mut i: usize = 0;
    while i < candidates.len()
        invariant
            i <= candidates@.len(),
            set@ == first_occurrences(views(candidates@.subrange(0, i as int))),
        decreases candidates@.len() - i,
    {
        let p = candidates[i].clone();
        let ghost before = views(candidates@.subrange(0, i as int));
        let ghost after = views(candidates@.subrange(0, i + 1));
        assert(after.drop_last() =~= before);
        assert(after.last() == candidates@[i as int]@);
        set.insert(p);
        i = i + 1;
    }
    assert(candidates@.subrange(0, i as int) =~= candidates@);
    set
}

/// Every candidate path is kept, nothing else is, and no path is kept twice:
/// two links that resolve to the same device give that device one reader.
pub proof fn lemma_first_occurrences(s: Seq<Seq<char>>)
    ensures
        first_occurrences(s).no_duplicates(),
        forall|p: Seq<char>| #[trigger] first_occurrences(s).contains(p) <==> s.contains(p),
    decreases s.len(),
{
    if s.len() > 0 {
        let rest = s.drop_last();
        lemma_first_occurrences(rest);
        assert forall|p: Seq<char>| #[trigger] s.contains(p) <==> rest.contains(p) || p
            == s.last() by {
            if s.contains(p) {
                let k = choose|k: int| 0 <= k < s.len() && s[k] == p;
                if k < s.len() - 1 {
                    assert(rest[k] == p);
                }
            }
            if rest.contains(p) {
                let k = choose|k: int| 0 <= k < rest.len() && rest[k] == p;
                assert(s[k] == p);
            }
            if p == s.last() {
                assert(s[s.len() - 1] == p);
            }
        }
        let seen = first_occurrences(rest);
        if !seen.contains(s.last()) {
            assert forall|p: Seq<char>| #[trigger] seen.push(s.last()).contains(p) <==> seen.contains(p)
                || p == s.last() by {
                if seen.push(s.last()).contains(p) {
                    let k = choose|k: int|
                        0 <= k < seen.push(s.last()).len() && seen.push(s.last())[k] == p;
                    if k < seen.len() {
                        assert(seen[k] == p);
                    }
                }
                if seen.contains(p) {
                    let k = choose|k: int| 0 <= k < seen.len() && seen[k] == p;
                    assert(seen.push(s.last())[k] == p);
                }
                if p == s.last() {
                    assert(seen.push(s.last())[seen.len() as int] == p);
                }
            }
        }
    }
}

} // verus!
