//! The arguments a native function is called with, as raw values.
use vstd::prelude::*;

use crate::v8::context_scope::ContextScope;
use crate::v8::argument_binding::{conversion, convert_argument, ArgType, ArgValue};
use crate::v8::types::any::{LocalValueAny, ValueView};

use crate::v8::iteration::{law_iteration_yields_in_order, next_step, yielded};

verus! {

/// The arguments JavaScript passed to a native function, in order.
pub struct V8LocalNativeFunctionArgs {
    pub values: Vec<LocalValueAny>,
}

impl V8LocalNativeFunctionArgs {
    /// The arguments.
    pub open spec fn args(&self) -> Seq<ValueView> {
        Seq::new(self.values@.len(), |i: int| self.values@[i]@)
    }

    /// The arguments of a call.
    pub fn new(values: Vec<LocalValueAny>) -> (r: Self)
        ensures
            r.values@ == values@,
    {
        V8LocalNativeFunctionArgs { values }
    }

    /// The argument at position `i`.
    pub fn get(&self, i: usize) -> (r: LocalValueAny)
        requires
            i < self.args().len(),
        ensures
            r@ == self.args()[i as int],
    {
        self.values[i].duplicate()
    }

    /// The number of arguments.
    pub fn len(&self) -> (r: usize)
        ensures
            r == self.args().len(),
    {
        self.values.len()
    }

    /// Returns `true` when there are no arguments.
    pub fn is_empty(&self) -> (r: bool)
        ensures
            r == (self.args().len() == 0),
    {
        self.values.len() == 0
    }

    /// Keeps the arguments beyond the call; the arguments are values
    /// of the call's handlers scope, so there is nothing to do.
    pub fn persist(&self) {
    }

    /// An iterator over the arguments, from the first one.
    pub fn iter<'a, 'ctx_scope, 's, 'i, T>(&'a self, ctx_scope: &'ctx_scope ContextScope<'s, 'i, T>) -> (r: V8LocalNativeFunctionArgsIter<'a, 'ctx_scope, 's, 'i, T>)
        ensures
            r.args == self,
            r.index == 0,
            r.ctx_scope == ctx_scope,
            r.remaining() == self.args(),
    {
        let r = V8LocalNativeFunctionArgsIter { args: self, index: 0, ctx_scope };
        assert(r.remaining() =~= self.args());
        r
    }
}

/// An iterator over the arguments of a native function.
pub struct V8LocalNativeFunctionArgsIter<'a, 'ctx_scope, 's, 'i, T> {
    pub args: &'a V8LocalNativeFunctionArgs,
    pub index: usize,
    pub ctx_scope: &'ctx_scope ContextScope<'s, 'i, T>,
}

impl<'a, 'ctx_scope, 's, 'i, T> V8LocalNativeFunctionArgsIter<'a, 'ctx_scope, 's, 'i, T> {
    /// The arguments still to come.
    pub open spec fn remaining(&self) -> Seq<ValueView> {
        if self.index <= self.args.args().len() {
            self.args.args().skip(self.index as int)
        } else {
            Seq::empty()
        }
    }

    /// The context scope the arguments are read in.
    pub fn get_ctx_scope(&self) -> (r: &'ctx_scope ContextScope<'s, 'i, T>)
        ensures
            r == self.ctx_scope,
    {
        self.ctx_scope
    }

    /// The next argument, if any.
    pub fn next(&mut self) -> (r: Option<LocalValueAny>)
        ensures
            final(self).args == old(self).args,
            final(self).ctx_scope == old(self).ctx_scope,
            old(self).remaining().len() == 0 ==> r is None && final(self).index == old(self).index,
            old(self).remaining().len() > 0 ==> (r matches Some(v) && v@ == old(self).remaining()[0]),
            old(self).remaining().len() > 0 ==> final(self).remaining() == old(self).remaining().drop_first(),
            next_step(
                old(self).remaining(),
                final(self).remaining(),
                match r {
                    Some(v) => Some(v@),
                    None => None,
                },
            ),
    {
        if self.index >= self.args.len() {
            return None;
        }
        let res = self.args.get(self.index);
        self.index = self.index + 1;
        assert(self.remaining() =~= old(self).remaining().drop_first());
        Some(res)
    }
    /// Takes the next argument, converted to the type `ty`; fails when
    /// there is no argument left or it does not convert.
    pub fn required_argument(&mut self, ty: ArgType) -> (r: Result<ArgValue, &'static str>)
        ensures
            final(self).args == old(self).args,
            final(self).ctx_scope == old(self).ctx_scope,
            old(self).remaining().len() == 0 ==> r == Err::<ArgValue, &'static str>("Wrong number of arguments given"),
            old(self).remaining().len() > 0 ==> match conversion(ty, old(self).remaining()[0]) {
                Ok(a) => r matches Ok(x) && x@ == a,
                Err(e) => r == Err::<ArgValue, &'static str>(e),
            },
            old(self).remaining().len() > 0 ==> final(self).remaining() == old(self).remaining().drop_first(),
    {
        match self.next() {
            Some(v) => convert_argument(ty, v),
            None => Err("Wrong number of arguments given"),
        }
    }

    /// Takes the next argument, if there is one, converted to the type
    /// `ty`; fails when it does not convert.
    pub fn optional_argument(&mut self, ty: ArgType) -> (r: Result<Option<ArgValue>, &'static str>)
        ensures
            final(self).args == old(self).args,
            final(self).ctx_scope == old(self).ctx_scope,
            old(self).remaining().len() == 0 ==> r matches Ok(None),
            old(self).remaining().len() > 0 ==> match conversion(ty, old(self).remaining()[0]) {
                Ok(a) => r matches Ok(Some(x)) && x@ == a,
                Err(e) => r == Err::<Option<ArgValue>, &'static str>(e),
            },
            old(self).remaining().len() > 0 ==> final(self).remaining() == old(self).remaining().drop_first(),
    {
        match self.next() {
            Some(v) => match convert_argument(ty, v) {
                Ok(a) => Ok(Some(a)),
                Err(e) => Err(e),
            },
            None => Ok(None),
        }
    }
}

/// A run of calls of `next`: `its[j]` is the iterator before the call
/// `j` and `outs[j]` what that call yielded, as `next` states.
pub open spec fn arguments_run<'a, 'ctx_scope, 's, 'i, T>(
    its: Seq<V8LocalNativeFunctionArgsIter<'a, 'ctx_scope, 's, 'i, T>>,
    outs: Seq<Option<ValueView>>,
) -> bool {
    &&& its.len() == outs.len() + 1
    &&& forall|j: int|
        0 <= j < outs.len() ==> {
            &&& #[trigger] its[j + 1].args == its[j].args
            &&& its[j + 1].ctx_scope == its[j].ctx_scope
            &&& next_step(its[j].remaining(), its[j + 1].remaining(), outs[j])
        }
}

/// Iterating over the arguments of a native function from the start
/// yields each argument, in order, one per call of `next` (the argument
/// `k` is what [`V8LocalNativeFunctionArgs::get`] gives at `k`), and
/// then nothing on every later call. The iterator keeps the arguments
/// and the context scope it was made with, so
/// [`V8LocalNativeFunctionArgsIter::get_ctx_scope`] gives that scope
/// after any number of calls.
pub proof fn law_arguments_iteration_in_order<'a, 'ctx_scope, 's, 'i, T>(
    args: &'a V8LocalNativeFunctionArgs,
    ctx_scope: &'ctx_scope ContextScope<'s, 'i, T>,
    its: Seq<V8LocalNativeFunctionArgsIter<'a, 'ctx_scope, 's, 'i, T>>,
    outs: Seq<Option<ValueView>>,
)
    requires
        arguments_run(its, outs),
        its[0].args == args,
        its[0].ctx_scope == ctx_scope,
        its[0].remaining() == args.args(),
    ensures
        forall|j: int| 0 <= j < outs.len() ==> #[trigger] outs[j] == yielded(args.args(), j),
        forall|j: int| 0 <= j < its.len() ==> #[trigger] its[j].ctx_scope == ctx_scope && its[j].args == args,
{
    let states = Seq::new(its.len(), |j: int| its[j].remaining());
    assert forall|j: int| 0 <= j < outs.len() implies #[trigger] next_step(states[j], states[j + 1], outs[j]) by {
        assert(its[j + 1].args == its[j].args);
    }
    law_iteration_yields_in_order(states, outs);
    assert forall|j: int| 0 <= j < its.len() implies #[trigger] its[j].ctx_scope == ctx_scope && its[j].args == args by {
        lemma_arguments_kept(args, ctx_scope, its, outs, j);
    }
}

proof fn lemma_arguments_kept<'a, 'ctx_scope, 's, 'i, T>(
    args: &'a V8LocalNativeFunctionArgs,
    ctx_scope: &'ctx_scope ContextScope<'s, 'i, T>,
    its: Seq<V8LocalNativeFunctionArgsIter<'a, 'ctx_scope, 's, 'i, T>>,
    outs: Seq<Option<ValueView>>,
    j: int,
)
    requires
        arguments_run(its, outs),
        its[0].args == args,
        its[0].ctx_scope == ctx_scope,
        0 <= j < its.len(),
    ensures
        its[j].ctx_scope == ctx_scope,
        its[j].args == args,
    decreases j,
{
    if j > 0 {
        lemma_arguments_kept(args, ctx_scope, its, outs, j - 1);
        assert(its[(j - 1) + 1].args == its[j - 1].args);
    }
}

} // verus!
