//! An isolated execution context with its own set of built-in objects
//! and functions, and a table of private data slots.
use vstd::prelude::*;

use crate::v8::context_scope::ContextScope;
use crate::v8::data_slots::DataSlots;
use crate::v8::isolate::V8Isolate;
use crate::v8::isolate_scope::IsolateScope;
use crate::v8::types::object_template::{LocalObjectTemplate, TemplateView};
use crate::{raw_of, user_index_fits, RawIndex, UserIndex};

verus! {

/// A data guard: it names the slot that [`Self::release`] empties
/// once the data attached there goes out of use.
pub struct ContextDataGuard {
    /// The raw slot to empty.
    pub index: RawIndex,
}

impl ContextDataGuard {
    /// Creates a new data guard for the raw slot `index`.
    pub(crate) fn new(index: RawIndex) -> (r: Self)
        ensures
            r.index == index,
    {
        ContextDataGuard { index }
    }

    /// Empties the guarded slot of `context`.
    pub fn release<T>(self, context: &mut Context<T>)
        ensures
            final(context)@ == old(context)@.remove(self.index.0),
            final(context).isolate_heap_limit == old(context).isolate_heap_limit,
            final(context).globals == old(context).globals,
    {
        context.reset_private_data_raw(self.index);
    }
}

/// A JavaScript execution context, with the private data attached to
/// it by the embedder.
pub struct Context<T> {
    /// The private data slots.
    pub slots: DataSlots<T>,
    /// The maximum heap size of the isolate the context was created in.
    pub isolate_heap_limit: usize,
    /// The template of the global object, if one was given.
    pub globals: Option<LocalObjectTemplate>,
}

impl<T> View for Context<T> {
    type V = Map<usize, T>;

    /// The occupied private data slots, by raw index.
    open spec fn view(&self) -> Map<usize, T> {
        self.slots@
    }
}

impl<T> Context<T> {
    /// The data a read of the user slot `index` gives back.
    pub open spec fn private_data(&self, index: UserIndex) -> Option<T> {
        self.slots.lookup(raw_of(index).0)
    }

    /// The template of the global object, if one was given.
    pub open spec fn globals_view(&self) -> Option<TemplateView> {
        match self.globals {
            Some(g) => Some(g@),
            None => None,
        }
    }

    /// Creates a new context in the isolate, with no private data; its
    /// global object is made from `globals` when given.
    pub(crate) fn new(isolate: &V8Isolate, globals: Option<&LocalObjectTemplate>) -> (r: Self)
        ensures
            r@ == Map::<usize, T>::empty(),
            r.isolate_heap_limit == isolate.maximum_heap_size,
            match globals {
                Some(g) => r.globals_view() == Some(g@),
                None => r.globals_view() is None,
            },
    {
        let globals = match globals {
            Some(g) => Some(g.duplicate()),
            None => None,
        };
        Context { slots: DataSlots::new(), isolate_heap_limit: isolate.maximum_heap_size, globals }
    }

    /// Enters the context for JavaScript code invocation. The context
    /// is exited when the scope exits ([`ContextScope::exit`]).
    pub fn enter<'isolate_scope, 'isolate>(self, isolate_scope: &'isolate_scope IsolateScope<'isolate>) -> (r: ContextScope<'isolate_scope, 'isolate, T>)
        ensures
            r.context == self,
            r.exit_on_drop,
            r.isolate_scope == isolate_scope,
    {
        ContextScope { context: self, exit_on_drop: true, isolate_scope }
    }

    /// Enters the context for debugging; otherwise as [`Self::enter`].
    pub fn debug_enter<'isolate_scope, 'isolate>(self, isolate_scope: &'isolate_scope IsolateScope<'isolate>) -> (r: ContextScope<'isolate_scope, 'isolate, T>)
        ensures
            r.context == self,
            r.exit_on_drop,
            r.isolate_scope == isolate_scope,
    {
        self.enter(isolate_scope)
    }

    /// Attaches data at a raw slot.
    pub(crate) fn set_private_data_raw(&mut self, index: RawIndex, data: T)
        ensures
            final(self)@ == old(self)@.insert(index.0, data),
            final(self).isolate_heap_limit == old(self).isolate_heap_limit,
            final(self).globals == old(self).globals,
    {
        self.slots.set(index, data);
    }

    /// Attaches data at the user slot `index`; it can later be read
    /// with [`Self::get_private_data`]. The guard returned empties the
    /// slot when released.
    pub fn set_private_data(&mut self, index: UserIndex, data: T) -> (r: ContextDataGuard)
        requires
            user_index_fits(index),
        ensures
            final(self)@ == old(self)@.insert(raw_of(index).0, data),
            final(self).isolate_heap_limit == old(self).isolate_heap_limit,
            final(self).globals == old(self).globals,
            r.index == raw_of(index),
    {
        let raw = RawIndex::from_user(index);
        self.set_private_data_raw(raw, data);
        ContextDataGuard::new(raw)
    }

    /// Empties a raw slot.
    pub(crate) fn reset_private_data_raw(&mut self, index: RawIndex)
        ensures
            final(self)@ == old(self)@.remove(index.0),
            final(self).isolate_heap_limit == old(self).isolate_heap_limit,
            final(self).globals == old(self).globals,
    {
        self.slots.reset(index);
    }

    /// Empties the user slot `index`.
    pub fn reset_private_data(&mut self, index: UserIndex)
        requires
            user_index_fits(index),
        ensures
            final(self)@ == old(self)@.remove(raw_of(index).0),
            final(self).isolate_heap_limit == old(self).isolate_heap_limit,
            final(self).globals == old(self).globals,
    {
        let raw = RawIndex::from_user(index);
        self.reset_private_data_raw(raw)
    }

    /// The data attached at a raw slot.
    pub(crate) fn get_private_data_raw(&self, index: RawIndex) -> (r: Option<&T>)
        ensures
            match r {
                Some(d) => self.slots.lookup(index.0) == Some(*d),
                None => self.slots.lookup(index.0) is None,
            },
    {
        self.slots.get(index)
    }

    /// The data attached with [`Self::set_private_data`] at the user
    /// slot `index`, if any.
    pub fn get_private_data(&self, index: UserIndex) -> (r: Option<&T>)
        requires
            user_index_fits(index),
        ensures
            match r {
                Some(d) => self.private_data(index) == Some(*d),
                None => self.private_data(index) is None,
            },
    {
        let raw = RawIndex::from_user(index);
        self.get_private_data_raw(raw)
    }

    /// The data attached at the user slot `index`, if any, for
    /// modification in place.
    pub fn get_private_data_mut(&mut self, index: UserIndex) -> (r: Option<&mut T>)
        requires
            user_index_fits(index),
        ensures
            match r {
                Some(d) => {
                    &&& old(self).private_data(index) == Some(*d)
                    &&& final(self)@ == old(self)@.insert(raw_of(index).0, *final(d))
                },
                None => {
                    &&& old(self).private_data(index) is None
                    &&& final(self)@ == old(self)@
                },
            },
            final(self).isolate_heap_limit == old(self).isolate_heap_limit,
            final(self).globals == old(self).globals,
    {
        let raw = RawIndex::from_user(index);
        self.slots.get_mut(raw)
    }
}

/// A read of a user slot gives back the data last attached there: after
/// [`Context::set_private_data`] at `index`, [`Context::get_private_data`]
/// at `index` gives the data, and every other user slot reads as before.
pub proof fn law_read_after_write<T>(before: Context<T>, after: Context<T>, index: UserIndex, other: UserIndex, data: T)
    requires
        user_index_fits(index),
        user_index_fits(other),
        after@ == before@.insert(raw_of(index).0, data),
    ensures
        after.private_data(index) == Some(data),
        other != index ==> after.private_data(other) == before.private_data(other),
{
}

/// After [`Context::reset_private_data`] (or the release of the guard
/// of [`Context::set_private_data`]) at `index`, a read of `index`
/// gives nothing, and every other user slot reads as before.
pub proof fn law_read_after_reset<T>(before: Context<T>, after: Context<T>, index: UserIndex, other: UserIndex)
    requires
        user_index_fits(index),
        user_index_fits(other),
        after@ == before@.remove(raw_of(index).0),
    ensures
        after.private_data(index) is None,
        other != index ==> after.private_data(other) == before.private_data(other),
{
}

/// The slots reserved for the crate's internal data are never changed
/// by setting or resetting a user slot.
pub proof fn law_internal_slots_untouched<T>(m: Map<usize, T>, index: UserIndex, data: T, raw: usize)
    requires
        user_index_fits(index),
        raw < crate::INTERNAL_OFFSET,
    ensures
        m.insert(raw_of(index).0, data).contains_key(raw) == m.contains_key(raw),
        m.insert(raw_of(index).0, data)[raw] == m[raw],
        m.remove(raw_of(index).0).contains_key(raw) == m.contains_key(raw),
        m.remove(raw_of(index).0)[raw] == m[raw],
{
}

} // verus!
