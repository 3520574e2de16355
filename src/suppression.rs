//! The set of paths whose next metadata notification is expected to be the
//! echo of a corrective write of our own.
use vstd::prelude::*;

verus! {

/// Whether two paths are the same sequence of bytes.
pub fn same_path(a: &Vec<u8>, b: &Vec<u8>) -> (r: bool)
    ensures
        r == (a@ == b@),
{
    if a.len() != b.len() {
        return false;
    }
    let mut i: usize = 0;
    while i < a.len()
        invariant
            a@.len() == b@.len(),
            i <= a@.len(),
            forall|j: int| 0 <= j < i ==> a@[j] == b@[j],
        decreases a@.len() - i,
    {
        if a[i] != b[i] {
            return false;
        }
        i = i + 1;
    }
    assert(a@ =~= b@);
    true
}

/// One-shot markers, one per path: a marked path's next matching
/// notification is discarded and clears the mark.
#[derive(Debug)]
pub struct SuppressionSet {
    entries: Vec<Vec<u8>>,
}

impl View for SuppressionSet {
    type V = Set<Seq<u8>>;

    closed spec fn view(&self) -> Set<Seq<u8>> {
        Set::new(|p: Seq<u8>| exists|i: int| 0 <= i < self.entries@.len() && self.entries@[i]@ == p)
    }
}

impl SuppressionSet {
    /// No path is held twice.
    pub closed spec fn wf(&self) -> bool {
        forall|i: int, j: int|
            0 <= i < self.entries@.len() && 0 <= j < self.entries@.len() && i != j
                ==> self.entries@[i]@ != self.entries@[j]@
    }

    /// The empty set.
    pub fn new() -> (r: SuppressionSet)
        ensures
            r.wf(),
            r@ == Set::<Seq<u8>>::empty(),
    {
        let r = SuppressionSet { entries: Vec::new() };
        assert(r@ =~= Set::<Seq<u8>>::empty());
        r
    }

    /// The position of `path`, if it is held.
    fn find(&self, path: &Vec<u8>) -> (r: Option<usize>)
        ensures
            match r {
                Some(i) => i < self.entries@.len() && self.entries@[i as int]@ == path@,
                None => forall|j: int| 0 <= j < self.entries@.len() ==> self.entries@[j]@ != path@,
            },
    {
        let mut i: usize = 0;
        while i < self.entries.len()
            invariant
                i <= self.entries@.len(),
                forall|j: int| 0 <= j < i ==> self.entries@[j]@ != path@,
            decreases self.entries@.len() - i,
        {
            if same_path(&self.entries[i], path) {
                return Some(i);
            }
            i = i + 1;
        }
        None
    }

    /// Whether `path` is marked.
    pub fn contains(&self, path: &Vec<u8>) -> (r: bool)
        ensures
            r == self@.contains(path@),
    {
        let r = self.find(path);
        match r {
            Some(i) => {
                assert(self@.contains(path@)) by {
                    assert(self.entries@[i as int]@ == path@);
                }
                true
            },
            None => false,
        }
    }

    /// The number of marked paths.
    pub fn len(&self) -> (r: usize)
        requires
            self.wf(),
        ensures
            r as nat == self@.len(),
    {
        proof {
            self.lemma_len();
        }
        self.entries.len()
    }

    proof fn lemma_len(&self)
        requires
            self.wf(),
        ensures
            self@.finite(),
            self@.len() == self.entries@.len(),
    {
        let es = self.entries@;
        let views = es.map_values(|v: Vec<u8>| v@);
        assert(views.no_duplicates()) by {
            assert forall|i: int, j: int| 0 <= i < views.len() && 0 <= j < views.len() && i != j
                implies views[i] != views[j] by {
                assert(views[i] == es[i]@ && views[j] == es[j]@);
            }
        }
        assert forall|p: Seq<u8>| self@.contains(p) implies views.to_set().contains(p) by {
            let k = choose|k: int| 0 <= k < es.len() && es[k]@ == p;
            assert(views[k] == p);
        }
        assert forall|p: Seq<u8>| views.to_set().contains(p) implies self@.contains(p) by {
            let k = choose|k: int| 0 <= k < views.len() && views[k] == p;
            assert(es[k]@ == p);
        }
        assert(self@ =~= views.to_set());
        views.unique_seq_to_set();
    }

    /// Marks `path`; marking a marked path changes nothing.
    pub fn insert(&mut self, path: &Vec<u8>)
        requires
            old(self).wf(),
        ensures
            final(self).wf(),
            final(self)@ == old(self)@.insert(path@),
    {
        match self.find(path) {
            Some(_) => {
                assert(self@ =~= self@.insert(path@));
            },
            None => {
                let ghost before = self.entries@;
                let copy = path.clone();
                assert(copy@ == path@);
                self.entries.push(copy);
                assert(self@ =~= old(self)@.insert(path@)) by {
                    assert(self.entries@ == before.push(copy));
                    assert(self.entries@[before.len() as int]@ == path@);
                    assert forall|p: Seq<u8>| self@.contains(p) implies old(self)@.insert(path@).contains(p) by {
                        let k = choose|k: int| 0 <= k < self.entries@.len() && self.entries@[k]@ == p;
                        if k < before.len() {
                            assert(before[k]@ == p);
                        }
                    }
                    assert forall|p: Seq<u8>| old(self)@.insert(path@).contains(p) implies self@.contains(p) by {
                        if p != path@ {
                            let k = choose|k: int| 0 <= k < before.len() && before[k]@ == p;
                            assert(self.entries@[k]@ == p);
                        }
                    }
                }
            },
        }
    }

    /// Clears the mark of `path`; tells whether it was marked.
    pub fn remove(&mut self, path: &Vec<u8>) -> (r: bool)
        requires
            old(self).wf(),
        ensures
            final(self).wf(),
            r == old(self)@.contains(path@),
            final(self)@ == old(self)@.remove(path@),
    {
        match self.find(path) {
            Some(i) => {
                let ghost before = self.entries@;
                self.entries.remove(i);
                assert(self@ =~= old(self)@.remove(path@)) by {
                    assert forall|p: Seq<u8>| self@.contains(p) implies old(self)@.remove(path@).contains(p) by {
                        let k = choose|k: int| 0 <= k < self.entries@.len() && self.entries@[k]@ == p;
                        if k < i {
                            assert(before[k]@ == p);
                        } else {
                            assert(before[k + 1]@ == p);
                        }
                    }
                    assert forall|p: Seq<u8>| old(self)@.remove(path@).contains(p) implies self@.contains(p) by {
                        let k = choose|k: int| 0 <= k < before.len() && before[k]@ == p;
                        if k < i {
                            assert(self.entries@[k]@ == p);
                        } else {
                            assert(k != i);
                            assert(self.entries@[k - 1]@ == p);
                        }
                    }
                }
                assert(old(self)@.contains(path@)) by {
                    assert(before[i as int]@ == path@);
                }
                true
            },
            None => {
                assert(self@ =~= self@.remove(path@));
                false
            },
        }
    }
}

} // verus!
