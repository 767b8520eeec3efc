//! The arguments a native function is called with.
use vstd::prelude::*;

use super::any::{classify, LocalValueAny, ValueView};
use super::{kind_for_type, Value};

use crate::v8::iteration::{law_iteration_yields_in_order, next_step, yielded};

verus! {

/// The arguments JavaScript passed to a native function, in order.
pub struct LocalNativeFunctionArgs {
    pub values: Vec<LocalValueAny>,
}

/// The value a native function gets for an argument: the argument
/// wrapped in the variant of its type.
pub open spec fn is_argument_value(r: Value, arg: ValueView) -> bool {
    &&& r.any() == Some(arg)
    &&& r.kind() == kind_for_type(classify(arg.flags))
}

impl LocalNativeFunctionArgs {
    /// The arguments.
    pub open spec fn args(&self) -> Seq<ValueView> {
        Seq::new(self.values@.len(), |i: int| self.values@[i]@)
    }

    /// The arguments of a call.
    pub fn new(values: Vec<LocalValueAny>) -> (r: Self)
        ensures
            r.values@ == values@,
    {
        LocalNativeFunctionArgs { values }
    }

    /// The argument at position `i`.
    pub fn get(&self, i: usize) -> (r: Value)
        requires
            i < self.args().len(),
        ensures
            is_argument_value(r, self.args()[i as int]),
    {
        Value::from_any(self.values[i].duplicate())
    }

    /// The number of arguments.
    pub fn len(&self) -> (r: usize)
        ensures
            r == self.args().len(),
    {
        self.values.len()
    }

    /// Returns `true` when there are no arguments.
    pub fn is_empty(&self) -> (r: bool)
        ensures
            r == (self.args().len() == 0),
    {
        self.values.len() == 0
    }

    /// An iterator over the arguments, from the first one.
    pub fn iter<'a>(&'a self) -> (r: LocalNativeFunctionArgsIter<'a>)
        ensures
            r.args == self,
            r.index == 0,
            r.remaining() == self.args(),
    {
        let r = LocalNativeFunctionArgsIter { args: self, index: 0 };
        assert(r.remaining() =~= self.args());
        r
    }
}

/// An iterator over the arguments of a native function.
pub struct LocalNativeFunctionArgsIter<'a> {
    pub args: &'a LocalNativeFunctionArgs,
    pub index: usize,
}

impl<'a> LocalNativeFunctionArgsIter<'a> {
    /// The arguments still to come.
    pub open spec fn remaining(&self) -> Seq<ValueView> {
        if self.index <= self.args.args().len() {
            self.args.args().skip(self.index as int)
        } else {
            Seq::empty()
        }
    }

    /// The next argument, if any.
    pub fn next(&mut self) -> (r: Option<Value>)
        ensures
            final(self).args == old(self).args,
            old(self).remaining().len() == 0 ==> r is None && final(self).index == old(self).index,
            old(self).remaining().len() > 0 ==> (r matches Some(v) && is_argument_value(v, old(self).remaining()[0])),
            old(self).remaining().len() > 0 ==> final(self).remaining() == old(self).remaining().drop_first(),
            next_step(
                old(self).remaining(),
                final(self).remaining(),
                match r {
                    Some(v) => v.any(),
                    None => None,
                },
            ),
    {
        if self.index >= self.args.len() {
            return None;
        }
        let res = self.args.get(self.index);
        self.index = self.index + 1;
        assert(self.remaining() =~= old(self).remaining().drop_first());
        Some(res)
    }
}

/// Iterating over the arguments of a native function from the start
/// yields each argument, in order, one per call of `next`, and then
/// nothing on every later call; the iterator keeps the arguments.
/// `its[j]` is the iterator before the call `j` and `outs[j]` what that
/// call yielded, as `next` states.
pub proof fn law_arguments_iteration_in_order<'a>(
    args: &'a LocalNativeFunctionArgs,
    its: Seq<LocalNativeFunctionArgsIter<'a>>,
    outs: Seq<Option<ValueView>>,
)
    requires
        its.len() == outs.len() + 1,
        its[0].args == args,
        its[0].remaining() == args.args(),
        forall|j: int|
            0 <= j < outs.len() ==> #[trigger] its[j + 1].args == its[j].args && next_step(
                its[j].remaining(),
                its[j + 1].remaining(),
                outs[j],
            ),
    ensures
        forall|j: int| 0 <= j < outs.len() ==> #[trigger] outs[j] == yielded(args.args(), j),
{
    let states = Seq::new(its.len(), |j: int| its[j].remaining());
    assert forall|j: int| 0 <= j < outs.len() implies #[trigger] next_step(states[j], states[j + 1], outs[j]) by {
        assert(its[j + 1].args == its[j].args);
    }
    law_iteration_yields_in_order(states, outs);
}

} // verus!
