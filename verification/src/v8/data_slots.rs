//! The private data slot table of a JavaScript context: the place where
//! the embedder's data is attached to a context.
use vstd::prelude::*;

use crate::RawIndex;

verus! {

/// The slot table of a context. A slot is either empty or holds the
/// data attached at that raw index; the table grows as slots further
/// away are set.
pub struct DataSlots<T> {
    pub slots: Vec<Option<T>>,
}

impl<T> View for DataSlots<T> {
    type V = Map<usize, T>;

    /// The occupied slots, by raw index.
    open spec fn view(&self) -> Map<usize, T> {
        Map::new(
            |i: usize| i < self.slots@.len() && self.slots@[i as int] is Some,
            |i: usize| self.slots@[i as int]->Some_0,
        )
    }
}

impl<T> DataSlots<T> {

    /// What a read of the raw slot `index` gives back.
    pub open spec fn lookup(&self, index: usize) -> Option<T> {
        if self@.contains_key(index) {
            Some(self@[index])
        } else {
            None
        }
    }

    /// An empty slot table.
    pub fn new() -> (r: Self)
        ensures
            r@ == Map::<usize, T>::empty(),
    {
        let r = DataSlots { slots: Vec::new() };
        assert(r@ =~= Map::<usize, T>::empty());
        r
    }

    /// Attaches `data` at the raw slot `index`, growing the table when
    /// needed.
    pub fn set(&mut self, index: RawIndex, data: T)
        ensures
            final(self)@ == old(self)@.insert(index.0, data),
    {
        let i = index.0;
        while self.slots.len() <= i
            invariant
                self@ == old(self)@,
            decreases i + 1 - self.slots@.len(),
        {
            let ghost before = self.slots@;
            self.slots.push(None);
            assert(self@ =~= old(self)@) by {
                assert forall|k: usize| #![trigger self.slots@[k as int]]
                    k < before.len() implies self.slots@[k as int] == before[k as int] by {}
            }
        }
        let ghost before = *self;
        self.slots.set(i, Some(data));
        assert(self@ =~= old(self)@.insert(i, data)) by {
            assert forall|k: usize| #![trigger self.slots@[k as int]]
                k < self.slots@.len() && k != i implies self.slots@[k as int] == before.slots@[k as int] by {}
        }
    }

    /// Empties the raw slot `index`.
    pub fn reset(&mut self, index: RawIndex)
        ensures
            final(self)@ == old(self)@.remove(index.0),
    {
        let i = index.0;
        if i < self.slots.len() {
            self.slots.set(i, None);
        }
        assert(self@ =~= old(self)@.remove(i));
    }

    /// The data attached at the raw slot `index`, if any.
    pub fn get(&self, index: RawIndex) -> (r: Option<&T>)
        ensures
            match r {
                Some(d) => self.lookup(index.0) == Some(*d),
                None => self.lookup(index.0) is None,
            },
    {
        let i = index.0;
        if i < self.slots.len() {
            match &self.slots[i] {
                Some(d) => Some(d),
                None => None,
            }
        } else {
            None
        }
    }

    /// The data attached at the raw slot `index`, if any, for
    /// modification in place.
    pub fn get_mut(&mut self, index: RawIndex) -> (r: Option<&mut T>)
        ensures
            match r {
                Some(d) => {
                    &&& old(self).lookup(index.0) == Some(*d)
                    &&& final(self)@ == old(self)@.insert(index.0, *final(d))
                },
                None => {
                    &&& old(self).lookup(index.0) is None
                    &&& final(self)@ == old(self)@
                },
            },
    {
        let i = index.0;
        if i < self.slots.len() {
            let slot = &mut self.slots[i];
            slot.as_mut()
        } else {
            None
        }
    }
}

} // verus!
