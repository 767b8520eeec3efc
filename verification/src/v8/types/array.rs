//! JavaScript arrays.
use vstd::prelude::*;

use super::any::{LocalValueAny, TypeFlags, ValueView};
use crate::v8::context_scope::ContextScope;
use crate::v8::isolate_scope::IsolateScope;

use crate::v8::iteration::{law_iteration_yields_in_order, next_step, yielded};

verus! {

/// A JavaScript array.
pub struct LocalArray(pub LocalValueAny);

/// The kinds a freshly created array reports: an array, which is an
/// object.
pub open spec fn array_flags() -> TypeFlags {
    TypeFlags { is_array: true, is_object: true, ..TypeFlags::spec_none() }
}

impl LocalArray {
    /// The value is an array.
    pub open spec fn wf(&self) -> bool {
        self.0@.flags.is_array
    }

    /// The elements of the array.
    pub open spec fn elements(&self) -> Seq<ValueView> {
        self.0@.elements
    }

    /// Creates a new array holding the given values, in order.
    pub fn new(values: &[&LocalValueAny], isolate_scope: &IsolateScope) -> (r: Self)
        ensures
            r.wf(),
            r.0@.flags == array_flags(),
            r.elements().len() == values@.len(),
            forall|i: int| 0 <= i < values@.len() ==> #[trigger] r.elements()[i] == values@[i]@,
    {
        let mut flags = TypeFlags::none();
        flags.is_array = true;
        flags.is_object = true;
        let mut value = LocalValueAny::bare(flags);
        let mut i: usize = 0;
        while i < values.len()
            invariant
                i <= values@.len(),
                value@.flags == array_flags(),
                value@.elements.len() == i,
                forall|k: int| 0 <= k < i ==> #[trigger] value@.elements[k] == values@[k]@,
            decreases values@.len() - i,
        {
            let e = values[i].duplicate();
            let ghost before = value@;
            value.elements.push(e);
            assert(value@.elements =~= before.elements.push(e@));
            i = i + 1;
        }
        LocalArray(value)
    }

    /// The number of elements.
    pub fn len(&self) -> (r: usize)
        ensures
            r == self.elements().len(),
    {
        self.0.elements.len()
    }

    /// Returns `true` when the array has no elements.
    pub fn is_empty(&self) -> (r: bool)
        ensures
            r == (self.elements().len() == 0),
    {
        self.len() == 0
    }

    /// The element at `index`; `undefined` past the end of the array.
    pub fn get<'s, 'i, T>(&self, ctx_scope: &ContextScope<'s, 'i, T>, index: usize) -> (r: LocalValueAny)
        ensures
            index < self.elements().len() ==> r@ == self.elements()[index as int],
            index >= self.elements().len() ==> r.is_undefined_value(),
    {
        if index < self.0.elements.len() {
            self.0.elements[index].duplicate()
        } else {
            LocalValueAny::undefined()
        }
    }

    /// An iterator over the elements, from the first one.
    pub fn iter<'array, 's, 'i, T>(&'array self, context_scope: &'array ContextScope<'s, 'i, T>) -> (r: V8LocalArrayIterator<'array>)
        ensures
            r.array == self,
            r.index == 0,
            r.remaining() == self.elements(),
    {
        let r = V8LocalArrayIterator { index: 0, array: self };
        assert(r.remaining() =~= self.elements());
        r
    }

    /// Converts a value into an array, failing when it is not one.
    pub fn try_from_any(value: LocalValueAny) -> (r: Result<Self, &'static str>)
        ensures
            value@.flags.is_array ==> (r matches Ok(a) && a.0@ == value@),
            !value@.flags.is_array ==> r == Err::<Self, &'static str>("Value is not an array"),
    {
        if !value.is_array() {
            return Err("Value is not an array");
        }
        Ok(LocalArray(value))
    }
}

/// An iterator over the elements of an array.
pub struct V8LocalArrayIterator<'array> {
    /// The position of the next element.
    pub index: usize,
    /// The array iterated.
    pub array: &'array LocalArray,
}

impl<'array> V8LocalArrayIterator<'array> {
    /// The elements still to come.
    pub open spec fn remaining(&self) -> Seq<ValueView> {
        if self.index <= self.array.elements().len() {
            self.array.elements().skip(self.index as int)
        } else {
            Seq::empty()
        }
    }

    /// The next element, if any.
    pub fn next(&mut self) -> (r: Option<LocalValueAny>)
        ensures
            final(self).array == old(self).array,
            old(self).remaining().len() == 0 ==> r is None && final(self).index == old(self).index,
            old(self).remaining().len() > 0 ==> (r matches Some(v) && v@ == old(self).remaining()[0]),
            old(self).remaining().len() > 0 ==> final(self).remaining() == old(self).remaining().drop_first(),
            next_step(
                old(self).remaining(),
                final(self).remaining(),
                match r {
                    Some(v) => Some(v@),
                    None => None,
                },
            ),
    {
        if self.index >= self.array.0.elements.len() {
            return None;
        }
        let value = self.array.0.elements[self.index].duplicate();
        self.index = self.index + 1;
        assert(self.remaining() =~= old(self).remaining().drop_first());
        Some(value)
    }
}

/// Iterating over an array yields each of its elements, in order, one
/// per call of `next` (the element `k` is what [`LocalArray::get`] gives
/// at `k`), and then nothing on every later call; the iterator stays on
/// the same array. `its[j]` is the iterator before the call `j` and
/// `outs[j]` what that call yielded, as `next` states.
pub proof fn law_array_iteration_in_order<'array>(
    array: &'array LocalArray,
    its: Seq<V8LocalArrayIterator<'array>>,
    outs: Seq<Option<ValueView>>,
)
    requires
        its.len() == outs.len() + 1,
        its[0].array == array,
        its[0].remaining() == array.elements(),
        forall|j: int|
            0 <= j < outs.len() ==> #[trigger] its[j + 1].array == its[j].array && next_step(
                its[j].remaining(),
                its[j + 1].remaining(),
                outs[j],
            ),
    ensures
        forall|j: int| 0 <= j < outs.len() ==> #[trigger] outs[j] == yielded(array.elements(), j),
        forall|j: int| 0 <= j < its.len() ==> #[trigger] its[j].array == array,
{
    let states = Seq::new(its.len(), |j: int| its[j].remaining());
    assert forall|j: int| 0 <= j < outs.len() implies #[trigger] next_step(states[j], states[j + 1], outs[j]) by {
        assert(its[j + 1].array == its[j].array);
    }
    law_iteration_yields_in_order(states, outs);
    assert forall|j: int| 0 <= j < its.len() implies #[trigger] its[j].array == array by {
        lemma_array_kept(array, its, outs, j);
    }
}

proof fn lemma_array_kept<'array>(
    array: &'array LocalArray,
    its: Seq<V8LocalArrayIterator<'array>>,
    outs: Seq<Option<ValueView>>,
    j: int,
)
    requires
        its.len() == outs.len() + 1,
        its[0].array == array,
        forall|k: int|
            0 <= k < outs.len() ==> #[trigger] its[k + 1].array == its[k].array && next_step(
                its[k].remaining(),
                its[k + 1].remaining(),
                outs[k],
            ),
        0 <= j < its.len(),
    ensures
        its[j].array == array,
    decreases j,
{
    if j > 0 {
        lemma_array_kept(array, its, outs, j - 1);
        assert(its[(j - 1) + 1].array == its[j - 1].array);
    }
}

} // verus!
