//! A set of non-owning resource names.
use crate::resource::ResourceId;
use vstd::prelude::*;

verus! {

/// A finite set of resource names that keeps none of the named resources
/// alive.
pub struct WeakSet {
    items: Vec<ResourceId>,
}

impl View for WeakSet {
    type V = Set<ResourceId>;

    closed spec fn view(&self) -> Set<ResourceId> {
        self.items@.to_set()
    }
}

impl WeakSet {
    /// No name is held twice.
    pub closed spec fn wf(&self) -> bool {
        self.items@.no_duplicates()
    }

    /// The empty set.
    pub fn new() -> (s: Self)
        ensures
            s.wf(),
            s@ == Set::<ResourceId>::empty(),
    {
        let s = WeakSet { items: Vec::new() };
        assert(s.items@.to_set() =~= Set::<ResourceId>::empty());
        s
    }

    /// The number of names in the set.
    pub fn len(&self) -> (n: usize)
        requires
            self.wf(),
        ensures
            self@.finite(),
            n == self@.len(),
    {
        proof {
            self.items@.unique_seq_to_set();
            vstd::seq_lib::seq_to_set_is_finite(self.items@);
        }
        self.items.len()
    }

    fn position(&self, id: ResourceId) -> (r: Option<usize>)
        ensures
            match r {
                Some(i) => i < self.items@.len() && self.items@[i as int] == id,
                None => !self.items@.contains(id),
            },
    {
        let mut i: usize = 0;
        while i < self.items.len()
            invariant
                i <= self.items@.len(),
                forall|j: int| 0 <= j < i ==> self.items@[j] != id,
            decreases self.items@.len() - i,
        {
            let it = self.items[i];
            if it.index == id.index && it.generation == id.generation {
                return Some(i);
            }
            i += 1;
        }
        None
    }

    /// Whether `id` is in the set.
    pub fn contains(&self, id: ResourceId) -> (b: bool)
        ensures
            b == self@.contains(id),
    {
        self.position(id).is_some()
    }

    /// Adds `id` to the set. Returns whether it was absent before.
    pub fn insert(&mut self, id: ResourceId) -> (fresh: bool)
        requires
            old(self).wf(),
        ensures
            final(self).wf(),
            final(self)@ == old(self)@.insert(id),
            fresh == !old(self)@.contains(id),
    {
        match self.position(id) {
            Some(_) => {
                assert(self.items@.to_set().insert(id) =~= self.items@.to_set());
                false
            },
            None => {
                let ghost before = self.items@;
                self.items.push(id);
                assert(self.items@.to_set() =~= before.to_set().insert(id)) by {
                    assert forall|x: ResourceId|
                        self.items@.to_set().contains(x) <==> before.to_set().insert(id).contains(
                            x,
                        ) by {
                        if self.items@.contains(x) {
                            let j = choose|j: int| 0 <= j < self.items@.len() && self.items@[j] == x;
                            if j < before.len() {
                                assert(before[j] == x);
                            }
                        }
                        if before.contains(x) {
                            let j = choose|j: int| 0 <= j < before.len() && before[j] == x;
                            assert(self.items@[j] == x);
                        }
                        if x == id {
                            assert(self.items@[before.len() as int] == x);
                        }
                    }
                }
                true
            },
        }
    }

    /// Takes `id` out of the set. Returns whether it was there.
    pub fn remove(&mut self, id: ResourceId) -> (found: bool)
        requires
            old(self).wf(),
        ensures
            final(self).wf(),
            final(self)@ == old(self)@.remove(id),
            found == old(self)@.contains(id),
    {
        match self.position(id) {
            None => {
                assert(self.items@.to_set().remove(id) =~= self.items@.to_set());
                false
            },
            Some(i) => {
                let ghost before = self.items@;
                self.items.remove(i);
                assert(self.items@ == before.remove(i as int));
                assert(self.items@.no_duplicates());
                assert(self.items@.to_set() =~= before.to_set().remove(id)) by {
                    assert forall|x: ResourceId|
                        self.items@.to_set().contains(x) <==> before.to_set().remove(id).contains(
                            x,
                        ) by {
                        if self.items@.contains(x) {
                            let j = choose|j: int| 0 <= j < self.items@.len() && self.items@[j] == x;
                            if j < i {
                                assert(before[j] == x);
                            } else {
                                assert(before[j + 1] == x);
                            }
                        }
                        if before.contains(x) && x != id {
                            let j = choose|j: int| 0 <= j < before.len() && before[j] == x;
                            if j < i {
                                assert(self.items@[j] == x);
                            } else {
                                assert(self.items@[j - 1] == x);
                            }
                        }
                    }
                }
                true
            },
        }
    }
}

} // verus!
