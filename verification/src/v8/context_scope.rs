//! An entered context.
use vstd::prelude::*;

use crate::v8::context::Context;
use crate::v8::isolate_scope::IsolateScope;
use crate::{raw_of, user_index_fits, RawIndex, UserIndex};

verus! {

/// A data guard: it names the slot that [`Self::release`] empties
/// once the data attached there goes out of use.
pub struct ContextScopeDataGuard {
    /// The raw slot to empty.
    pub index: RawIndex,
}

impl ContextScopeDataGuard {
    /// Creates a new data guard for the raw slot `index`.
    pub(crate) fn new(index: RawIndex) -> (r: Self)
        ensures
            r.index == index,
    {
        ContextScopeDataGuard { index }
    }

    /// Empties the guarded slot of the context `context_scope` entered.
    pub fn release<'s, 'i, T>(self, context_scope: &mut ContextScope<'s, 'i, T>)
        ensures
            final(context_scope).context@ == old(context_scope).context@.remove(self.index.0),
            final(context_scope).exit_on_drop == old(context_scope).exit_on_drop,
            final(context_scope).isolate_scope == old(context_scope).isolate_scope,
            final(context_scope).context.isolate_heap_limit == old(context_scope).context.isolate_heap_limit,
            final(context_scope).context.globals == old(context_scope).context.globals,
    {
        context_scope.reset_private_data_raw(self.index);
    }
}

/// An entered context. The context is exited when the scope exits,
/// unless the scope was told otherwise.
pub struct ContextScope<'isolate_scope, 'isolate, T> {
    /// The context entered.
    pub context: Context<T>,
    /// Whether the context is exited when the scope exits.
    pub exit_on_drop: bool,
    /// The isolate scope the context was entered in.
    pub isolate_scope: &'isolate_scope IsolateScope<'isolate>,
}

impl<'isolate_scope, 'isolate, T> ContextScope<'isolate_scope, 'isolate, T> {
    /// The data a read of the user slot `index` gives back.
    pub open spec fn private_data(&self, index: UserIndex) -> Option<T> {
        self.context.private_data(index)
    }

    /// A scope for a context that may already be entered; whether it
    /// is exited at the end is given by `exit_on_drop`.
    pub fn new_for_ref(context: Context<T>, exit_on_drop: bool, isolate_scope: &'isolate_scope IsolateScope<'isolate>) -> (r: Self)
        ensures
            r.context == context,
            r.exit_on_drop == exit_on_drop,
            r.isolate_scope == isolate_scope,
    {
        ContextScope { context, exit_on_drop, isolate_scope }
    }

    /// The isolate scope the context was entered in.
    pub(crate) fn get_isolate_scope(&self) -> (r: &'isolate_scope IsolateScope<'isolate>)
        ensures
            r == self.isolate_scope,
    {
        self.isolate_scope
    }

    /// Whether the context is exited when the scope exits.
    pub fn is_exit_on_drop(&self) -> (r: bool)
        ensures
            r == self.exit_on_drop,
    {
        self.exit_on_drop
    }

    /// Sets whether the context is exited when the scope exits.
    pub fn set_exit_on_drop(&mut self, exit_on_drop: bool)
        ensures
            final(self).exit_on_drop == exit_on_drop,
            final(self).context == old(self).context,
            final(self).isolate_scope == old(self).isolate_scope,
    {
        self.exit_on_drop = exit_on_drop;
    }

    /// Leaves the scope, giving the context back, and says whether the
    /// context was exited.
    pub fn exit(self) -> (r: (Context<T>, bool))
        ensures
            r.0 == self.context,
            r.1 == self.exit_on_drop,
    {
        (self.context, self.exit_on_drop)
    }

    /// The data attached at a raw slot.
    pub(crate) fn get_private_data_raw(&self, index: RawIndex) -> (r: Option<&T>)
        ensures
            match r {
                Some(d) => self.context.slots.lookup(index.0) == Some(*d),
                None => self.context.slots.lookup(index.0) is None,
            },
    {
        self.context.get_private_data_raw(index)
    }

    /// The data attached at the user slot `index`, if any.
    pub fn get_private_data(&self, index: UserIndex) -> (r: Option<&T>)
        requires
            user_index_fits(index),
        ensures
            match r {
                Some(d) => self.private_data(index) == Some(*d),
                None => self.private_data(index) is None,
            },
    {
        self.context.get_private_data(index)
    }

    /// Attaches data at a raw slot.
    pub(crate) fn set_private_data_raw(&mut self, index: RawIndex, data: T)
        ensures
            final(self).context@ == old(self).context@.insert(index.0, data),
            final(self).exit_on_drop == old(self).exit_on_drop,
            final(self).context.isolate_heap_limit == old(self).context.isolate_heap_limit,
            final(self).context.globals == old(self).context.globals,
            final(self).isolate_scope == old(self).isolate_scope,
    {
        self.context.set_private_data_raw(index, data);
    }

    /// Empties a raw slot.
    pub(crate) fn reset_private_data_raw(&mut self, index: RawIndex)
        ensures
            final(self).context@ == old(self).context@.remove(index.0),
            final(self).exit_on_drop == old(self).exit_on_drop,
            final(self).context.isolate_heap_limit == old(self).context.isolate_heap_limit,
            final(self).context.globals == old(self).context.globals,
            final(self).isolate_scope == old(self).isolate_scope,
    {
        self.context.reset_private_data_raw(index);
    }

    /// Attaches data at the user slot `index`. The guard returned
    /// empties the slot when released.
    pub fn set_private_data(&mut self, index: UserIndex, data: T) -> (r: ContextScopeDataGuard)
        requires
            user_index_fits(index),
        ensures
            final(self).context@ == old(self).context@.insert(raw_of(index).0, data),
            final(self).exit_on_drop == old(self).exit_on_drop,
            final(self).context.isolate_heap_limit == old(self).context.isolate_heap_limit,
            final(self).context.globals == old(self).context.globals,
            final(self).isolate_scope == old(self).isolate_scope,
            r.index == raw_of(index),
    {
        let raw = RawIndex::from_user(index);
        self.set_private_data_raw(raw, data);
        ContextScopeDataGuard::new(raw)
    }

    /// Empties the user slot `index`.
    pub fn reset_private_data(&mut self, index: UserIndex)
        requires
            user_index_fits(index),
        ensures
            final(self).context@ == old(self).context@.remove(raw_of(index).0),
            final(self).exit_on_drop == old(self).exit_on_drop,
            final(self).context.isolate_heap_limit == old(self).context.isolate_heap_limit,
            final(self).context.globals == old(self).context.globals,
            final(self).isolate_scope == old(self).isolate_scope,
    {
        let raw = RawIndex::from_user(index);
        self.reset_private_data_raw(raw);
    }

    /// The data attached at the user slot `index`, if any, for
    /// modification in place.
    pub fn get_private_data_mut(&mut self, index: UserIndex) -> (r: Option<&mut T>)
        requires
            user_index_fits(index),
        ensures
            match r {
                Some(d) => {
                    &&& old(self).private_data(index) == Some(*d)
                    &&& final(self).context@ == old(self).context@.insert(raw_of(index).0, *final(d))
                },
                None => {
                    &&& old(self).private_data(index) is None
                    &&& final(self).context@ == old(self).context@
                },
            },
            final(self).exit_on_drop == old(self).exit_on_drop,
            final(self).context.isolate_heap_limit == old(self).context.isolate_heap_limit,
            final(self).context.globals == old(self).context.globals,
            final(self).isolate_scope == old(self).isolate_scope,
    {
        self.context.get_private_data_mut(index)
    }
}

} // verus!
