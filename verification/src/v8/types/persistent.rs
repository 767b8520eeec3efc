//! Persisted values: values kept beyond the handlers scope they were
//! created in.
use vstd::prelude::*;

use super::any::{LocalValueAny, ValueView};
use crate::v8::isolate_scope::IsolateScope;

verus! {

/// A value persisted beyond its handlers scope. Once taken back as a
/// local value it holds nothing; once forgotten, it is not freed when
/// it goes away.
pub struct PersistValue {
    /// The persisted value; [`None`] once taken back.
    pub inner_val: Option<LocalValueAny>,
    /// Whether the persisted value is left alone (not freed) when this
    /// object goes away.
    pub forget: bool,
}

impl LocalValueAny {
    /// Persists the value so it can be kept beyond the current handlers
    /// scope.
    pub fn persist(&self) -> (r: PersistValue)
        ensures
            r.inner_val matches Some(v) && v@ == self@,
            !r.forget,
    {
        PersistValue { inner_val: Some(self.duplicate()), forget: false }
    }
}

impl PersistValue {
    /// The persisted value, if it was not taken back.
    pub open spec fn value(&self) -> Option<ValueView> {
        match self.inner_val {
            Some(v) => Some(v@),
            None => None,
        }
    }

    /// A local value for the persisted one.
    pub fn as_local(&self, isolate_scope: &IsolateScope) -> (r: LocalValueAny)
        requires
            self.inner_val is Some,
        ensures
            Some(r@) == self.value(),
    {
        match &self.inner_val {
            Some(v) => v.duplicate(),
            None => LocalValueAny::undefined(),
        }
    }

    /// Leaves the persisted value alone when this object goes away: it
    /// is not freed.
    pub fn forget(&mut self)
        requires
            old(self).inner_val is Some,
        ensures
            final(self).forget,
            final(self).value() == old(self).value(),
    {
        self.forget = true;
    }

    /// Takes the persisted value back as a local value, freeing the
    /// persisted one.
    pub fn take_local(self, isolate_scope: &IsolateScope) -> (r: LocalValueAny)
        requires
            self.inner_val is Some,
        ensures
            Some(r@) == self.value(),
    {
        match self.inner_val {
            Some(v) => v,
            None => LocalValueAny::undefined(),
        }
    }
}

/// A value persisted, then read back or taken back as a local value,
/// is the value itself.
pub proof fn law_persist_round_trip(value: ValueView, persisted: PersistValue, read: ValueView)
    requires
        persisted.value() == Some(value),
        Some(read) == persisted.value(),
    ensures
        read == value,
{
}

} // verus!
