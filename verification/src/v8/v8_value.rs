//! Values and persisted values, under their `V8`-prefixed names.
use vstd::prelude::*;

use crate::v8::isolate_scope::IsolateScope;
use crate::v8::types::any::{LocalValueAny, ValueView};
use crate::v8::types::persistent::PersistValue;

verus! {

/// A JavaScript value; see [`crate::v8::types::any::LocalValueAny`].
pub type V8LocalValue = crate::v8::types::any::LocalValueAny;

/// A persisted value under its `V8`-prefixed name. Taking the local value
/// back leaves it empty and forgotten, so that it frees nothing when it
/// goes away.
pub struct V8PersistValue(pub PersistValue);

impl V8PersistValue {
    /// The persisted value, if it was not taken back.
    pub open spec fn value(&self) -> Option<ValueView> {
        self.0.value()
    }

    /// Whether the persisted value is freed when this object goes away.
    pub open spec fn freed_on_drop(&self) -> bool {
        !self.0.forget
    }

    /// A local value for the persisted one; there must be one (it was
    /// not taken back).
    pub fn as_local(&self, isolate_scope: &IsolateScope) -> (r: LocalValueAny)
        requires
            self.0.inner_val is Some,
        ensures
            Some(r@) == self.value(),
    {
        self.0.as_local(isolate_scope)
    }

    /// Leaves the persisted value alone when this object goes away; there
    /// must be one (it was not taken back).
    pub fn forget(&mut self)
        requires
            old(self).0.inner_val is Some,
        ensures
            final(self).0.forget,
            !final(self).freed_on_drop(),
            final(self).value() == old(self).value(),
    {
        self.0.forget();
    }

    /// Takes the persisted value back as a local value, freeing the
    /// persisted one: this object is left empty and forgotten.
    pub fn take_local(&mut self, isolate_scope: &IsolateScope) -> (r: LocalValueAny)
        requires
            old(self).0.inner_val is Some,
        ensures
            Some(r@) == old(self).value(),
            final(self).0.inner_val is None,
            final(self).0.forget,
            !final(self).freed_on_drop(),
    {
        let r = self.0.as_local(isolate_scope);
        self.0.forget();
        self.0.inner_val = None;
        r
    }
}

impl From<PersistValue> for V8PersistValue {
    fn from(value: PersistValue) -> (r: Self)
        ensures
            r.0 == value,
    {
        V8PersistValue(value)
    }
}

impl vstd::std_specs::convert::FromSpecImpl<PersistValue> for V8PersistValue {
    open spec fn obeys_from_spec() -> bool {
        true
    }

    open spec fn from_spec(v: PersistValue) -> V8PersistValue {
        V8PersistValue(v)
    }
}

/// Once the local value is taken back, the persisted value is empty, so
/// that neither [`V8PersistValue::forget`] nor another take is possible
/// (both need a value), and it stays forgotten: it frees nothing when it
/// goes away.
pub proof fn law_taken_value_stays_forgotten(taken: V8PersistValue)
    requires
        taken.0.inner_val is None,
        taken.0.forget,
    ensures
        !(taken.0.inner_val is Some),
        taken.value() is None,
        !taken.freed_on_drop(),
{
}

} // verus!
