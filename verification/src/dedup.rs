//! The de-duplication record: the set of source ids whose result has been
//! delivered since their task was last started.

use vstd::prelude::*;

verus! {

/// Set of source ids, kept as a list.
#[derive(Debug)]
pub struct DedupRecord {
    delivered: Vec<String>,
}

impl View for DedupRecord {
    type V = Set<Seq<char>>;

    closed spec fn view(&self) -> Set<Seq<char>> {
        Set::new(|id: Seq<char>| self.holds(id))
    }
}

impl DedupRecord {
    spec fn holds(&self, id: Seq<char>) -> bool {
        exists|i: int| 0 <= i < self.delivered@.len() && (#[trigger] self.delivered@[i])@ == id
    }

    /// The empty record.
    pub fn new() -> (record: Self)
        ensures
            record@ == Set::<Seq<char>>::empty(),
    {
        let record = DedupRecord { delivered: Vec::new() };
        assert(record@ =~= Set::<Seq<char>>::empty());
        record
    }

    /// Index of `id` in the list, if it is listed.
    fn position(&self, id: &String) -> (found: Option<usize>)
        ensures
            match found {
                Some(i) => i < self.delivered@.len() && self.delivered@[i as int]@ == id@,
                None => !self.holds(id@),
            },
    {
        let mut i: usize = 0;
        while i < self.delivered.len()
            invariant
                i <= self.delivered@.len(),
                forall|k: int| 0 <= k < i ==> (#[trigger] self.delivered@[k])@ != id@,
            decreases self.delivered@.len() - i,
        {
            let item: &String = &self.delivered[i];
            if *item == *id {
                return Some(i);
            }
            i += 1;
        }
        None
    }

    /// Whether a result for `id` has been delivered.
    pub fn contains(&self, id: &String) -> (present: bool)
        ensures
            present == self@.contains(id@),
    {
        self.position(id).is_some()
    }

    /// Records `id` as delivered. Returns whether it was new.
    pub fn insert(&mut self, id: String) -> (fresh: bool)
        ensures
            final(self)@ == old(self)@.insert(id@),
            fresh == !old(self)@.contains(id@),
    {
        if self.position(&id).is_some() {
            assert(self@ =~= self@.insert(id@));
            false
        } else {
            let ghost before = *self;
            self.delivered.push(id);
            assert forall|other: Seq<char>| self.holds(other) == (before.holds(other) || other
                == id@) by {
                if before.holds(other) {
                    let i = choose|i: int|
                        0 <= i < before.delivered@.len() && (#[trigger] before.delivered@[i])@
                            == other;
                    assert(self.delivered@[i]@ == other);
                }
                if other == id@ {
                    assert(self.delivered@[before.delivered@.len() as int]@ == other);
                }
            }
            assert(self@ =~= before@.insert(id@));
            true
        }
    }

    /// Forgets `id`, wherever it is listed. Returns whether it was recorded.
    pub fn remove(&mut self, id: &String) -> (present: bool)
        ensures
            final(self)@ == old(self)@.remove(id@),
            present == old(self)@.contains(id@),
    {
        let ghost before = *self;
        let present = self.position(id).is_some();
        let mut i: usize = 0;
        while i < self.delivered.len()
            invariant
                i <= self.delivered@.len(),
                forall|k: int| 0 <= k < i ==> (#[trigger] self.delivered@[k])@ != id@,
                forall|other: Seq<char>|
                    other != id@ ==> (#[trigger] self.holds(other) == before.holds(other)),
            decreases self.delivered@.len() - i,
        {
            let item: &String = &self.delivered[i];
            if *item == *id {
                let ghost listed = *self;
                let _ = self.delivered.remove(i);
                assert forall|other: Seq<char>| other != id@ implies (#[trigger] self.holds(other)
                    == listed.holds(other)) by {
                    if self.holds(other) {
                        let j = choose|j: int|
                            0 <= j < self.delivered@.len() && (#[trigger] self.delivered@[j])@
                                == other;
                        if j < i {
                            assert(listed.delivered@[j]@ == other);
                        } else {
                            assert(listed.delivered@[j + 1]@ == other);
                        }
                    }
                    if listed.holds(other) {
                        let j = choose|j: int|
                            0 <= j < listed.delivered@.len() && (#[trigger] listed.delivered@[j])@
                                == other;
                        if j < i {
                            assert(self.delivered@[j]@ == other);
                        } else {
                            assert(self.delivered@[j - 1]@ == other);
                        }
                    }
                }
            } else {
                i += 1;
            }
        }
        assert(self@ =~= before@.remove(id@));
        present
    }
}

} // verus!
