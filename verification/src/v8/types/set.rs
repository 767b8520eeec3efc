//! JavaScript sets.
use vstd::prelude::*;

use super::any::{classify, LocalValueAny, Type, TypeFlags};
use crate::v8::isolate_scope::IsolateScope;

verus! {

/// A JavaScript `Set` object.
pub struct LocalSet(pub LocalValueAny);

impl LocalSet {
    /// The value is a set.
    pub open spec fn wf(&self) -> bool {
        self.0@.flags.is_set
    }

    /// Creates a new, empty set.
    pub fn new(isolate_scope: &IsolateScope) -> (r: Self)
        ensures
            r.wf(),
            r.0.is_bare(TypeFlags { is_set: true, is_object: true, ..TypeFlags::spec_none() }),
            classify(r.0@.flags) == Some(Type::SetObject),
    {
        let mut flags = TypeFlags::none();
        flags.is_set = true;
        flags.is_object = true;
        LocalSet(LocalValueAny::bare(flags))
    }

    /// Converts a value into a set, failing when it is not one.
    pub fn try_from_any(value: LocalValueAny) -> (r: Result<Self, &'static str>)
        ensures
            value@.flags.is_set ==> (r matches Ok(a) && a.0@ == value@),
            !value@.flags.is_set ==> r == Err::<Self, &'static str>("Value is not a set"),
    {
        if !value.is_set() {
            return Err("Value is not a set");
        }
        Ok(LocalSet(value))
    }
}

} // verus!
