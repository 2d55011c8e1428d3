//! A finite set of textual identifiers (peer identifiers, message
//! identifiers), kept as a vector without repeats.
use vstd::prelude::*;

verus! {

pub struct IdSet {
    items: Vec<String>,
}

impl View for IdSet {
    type V = Set<Seq<char>>;

    closed spec fn view(&self) -> Set<Seq<char>> {
        Set::new(|s: Seq<char>| exists|i: int| 0 <= i < self.items@.len() && #[trigger] self.items@[i]@ == s)
    }
}

impl IdSet {
    /// No identifier is held twice.
    pub closed spec fn wf(&self) -> bool {
        forall|i: int, j: int|
            0 <= i < j < self.items@.len() ==> #[trigger] self.items@[i]@ != #[trigger] self.items@[j]@
    }

    pub fn new() -> (r: IdSet)
        ensures
            r.wf(),
            r@ == Set::<Seq<char>>::empty(),
    {
        let r = IdSet { items: Vec::new() };
        assert(r@ =~= Set::<Seq<char>>::empty());
        r
    }

    /// The position of `id`, if it is held.
    fn find(&self, id: &String) -> (r: Option<usize>)
        ensures
            match r {
                Some(i) => i < self.items@.len() && self.items@[i as int]@ == id@,
                None => forall|i: int| 0 <= i < self.items@.len() ==> self.items@[i]@ != id@,
            },
    {
        let mut i: usize = 0;
        while i < self.items.len()
            invariant
                i <= self.items@.len(),
                forall|k: int| 0 <= k < i ==> self.items@[k]@ != id@,
            decreases self.items@.len() - i,
        {
            if self.items[i] == *id {
                return Some(i);
            }
            i = i + 1;
        }
        None
    }

    pub fn contains(&self, id: &String) -> (r: bool)
        ensures
            r == self@.contains(id@),
    {
        match self.find(id) {
            Some(_) => true,
            None => false,
        }
    }

    /// Adds `id`; the result tells whether it was absent before.
    pub fn insert(&mut self, id: String) -> (r: bool)
        requires
            old(self).wf(),
        ensures
            final(self).wf(),
            final(self)@ == old(self)@.insert(id@),
            r == !old(self)@.contains(id@),
    {
        match self.find(&id) {
            Some(_) => {
                assert(self@.insert(id@) =~= self@);
                false
            },
            None => {
                let ghost before = self.items@;
                let ghost v = id@;
                self.items.push(id);
                assert(self.items@[before.len() as int]@ == v);
                assert forall|s: Seq<char>| self@.contains(s) == old(self)@.insert(v).contains(s) by {
                    if old(self)@.contains(s) && s != v {
                        let k = choose|k: int| 0 <= k < before.len() && #[trigger] before[k]@ == s;
                        assert(self.items@[k] == before[k]);
                    }
                    if self@.contains(s) && s != v {
                        let k = choose|k: int| 0 <= k < self.items@.len() && #[trigger] self.items@[k]@ == s;
                        assert(k < before.len());
                        assert(before[k] == self.items@[k]);
                    }
                }
                assert(self@ =~= old(self)@.insert(v));
                true
            },
        }
    }

    /// Takes `id` out; the result tells whether it was held.
    pub fn remove(&mut self, id: &String) -> (r: bool)
        requires
            old(self).wf(),
        ensures
            final(self).wf(),
            final(self)@ == old(self)@.remove(id@),
            r == old(self)@.contains(id@),
    {
        match self.find(id) {
            None => {
                assert(self@.remove(id@) =~= self@);
                false
            },
            Some(i) => {
                let ghost before = self.items@;
                let ghost v = id@;
                let _gone = self.items.remove(i);
                assert forall|s: Seq<char>| self@.contains(s) == old(self)@.remove(v).contains(s) by {
                    if old(self)@.contains(s) && s != v {
                        let k = choose|k: int| 0 <= k < before.len() && #[trigger] before[k]@ == s;
                        if k < i {
                            assert(self.items@[k] == before[k]);
                        } else {
                            assert(k != i);
                            assert(self.items@[k - 1] == before[k]);
                        }
                    }
                    if self@.contains(s) {
                        let k = choose|k: int| 0 <= k < self.items@.len() && #[trigger] self.items@[k]@ == s;
                        if k < i {
                            assert(self.items@[k] == before[k]);
                            assert(before[k]@ != before[i as int]@);
                        } else {
                            assert(self.items@[k] == before[k + 1]);
                            assert(before[i as int]@ != before[k + 1]@);
                        }
                    }
                }
                assert(self@ =~= old(self)@.remove(v));
                assert forall|a: int, b: int| 0 <= a < b < self.items@.len() implies
                    #[trigger] self.items@[a]@ != #[trigger] self.items@[b]@ by {
                    let a2 = if a < i { a } else { a + 1 };
                    let b2 = if b < i { b } else { b + 1 };
                    assert(self.items@[a] == before[a2]);
                    assert(self.items@[b] == before[b2]);
                    assert(before[a2]@ != before[b2]@);
                }
                true
            },
        }
    }
}

} // verus!
