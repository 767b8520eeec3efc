//! The scope of an entered isolate.
use vstd::prelude::*;

use crate::v8::context::Context;
use crate::v8::isolate::V8Isolate;
use crate::v8::types::any::{classify, LocalValueAny, Type, TypeFlags};
use crate::v8::types::array::LocalArray;
use crate::v8::types::array_buffer::LocalArrayBuffer;
use crate::v8::types::external_data::LocalExternalData;
use crate::v8::types::object::LocalObject;
use crate::v8::types::object_template::LocalObjectTemplate;
use crate::v8::types::set::LocalSet;
use crate::v8::types::try_catch::TryCatch;
use crate::v8::types::unlocker::Unlocker;
use crate::v8::types::{LocalValueBoolean, LocalValueInteger, LocalValueNull};
use crate::v8::v8_string::V8LocalString;

verus! {

/// An entered isolate together with its handlers scope.
pub struct V8IsolateScope<'isolate> {
    /// The isolate entered.
    pub isolate: &'isolate V8Isolate,
    /// Whether this scope entered the isolate and opened a handlers
    /// scope itself (and so leaves them when it goes away).
    pub entered: bool,
}

/// The isolate scope the scoped values belong to.
pub type IsolateScope<'isolate> = V8IsolateScope<'isolate>;

impl<'isolate> V8IsolateScope<'isolate> {
    /// Enters the isolate and opens a handlers scope.
    pub fn new(isolate: &'isolate V8Isolate) -> (r: Self)
        ensures
            r.isolate == isolate,
            r.entered,
    {
        V8IsolateScope { isolate, entered: true }
    }

    /// A scope for an isolate that is already entered, with a handlers
    /// scope already open (as when a native function runs): it leaves
    /// nothing when it goes away.
    pub fn new_dummy(isolate: &'isolate V8Isolate) -> (r: Self)
        ensures
            r.isolate == isolate,
            !r.entered,
    {
        V8IsolateScope { isolate, entered: false }
    }

    /// Creates a new context for JavaScript code invocation, with no
    /// private data; its global object is made from `globals` when
    /// given.
    pub fn new_context<T>(&self, globals: Option<&LocalObjectTemplate>) -> (r: Context<T>)
        ensures
            r@ == Map::<usize, T>::empty(),
            r.isolate_heap_limit == self.isolate.maximum_heap_size,
            match globals {
                Some(g) => r.globals_view() == Some(g@),
                None => r.globals_view() is None,
            },
    {
        Context::new(self.isolate, globals)
    }
    /// Creates a new try-catch block: exceptions raised while it lives
    /// are caught in it.
    pub fn new_try_catch(&self) -> (r: TryCatch)
        ensures
            r.exception is None,
            r.trace is None,
            !r.terminated,
    {
        TryCatch::new(self)
    }

    /// Creates a new string holding `s`.
    pub fn new_string(&self, s: &str) -> (r: V8LocalString)
        ensures
            r.text() == Some(s@),
            r.0@.flags == (TypeFlags { is_string: true, ..TypeFlags::spec_none() }),
    {
        V8LocalString::new(self, s)
    }

    /// Creates a new array holding the given values, in order.
    pub fn new_array(&self, values: &[&LocalValueAny]) -> (r: LocalArray)
        ensures
            r.wf(),
            r.elements().len() == values@.len(),
            forall|i: int| 0 <= i < values@.len() ==> #[trigger] r.elements()[i] == values@[i]@,
    {
        LocalArray::new(values, self)
    }

    /// Creates a new array buffer holding a copy of `buff`.
    pub fn new_array_buffer(&self, buff: &[u8]) -> (r: LocalArrayBuffer)
        ensures
            r.wf(),
            r.0@.bytes == buff@,
            r.0@.flags == (TypeFlags { is_array_buffer: true, is_object: true, ..TypeFlags::spec_none() }),
            classify(r.0@.flags) == Some(Type::ArrayBuffer),
    {
        LocalArrayBuffer::new(buff, self)
    }

    /// Creates a new object with no properties.
    pub fn new_object(&self) -> (r: LocalObject)
        ensures
            r.wf(),
            r.0.is_bare(TypeFlags { is_object: true, ..TypeFlags::spec_none() }),
            classify(r.0@.flags) == Some(Type::Object),
    {
        LocalObject::new(self)
    }

    /// Hands `data` to the engine as external data.
    pub fn new_external_data<T>(&self, data: T) -> (r: LocalExternalData<T>)
        ensures
            r.wf(),
            r.value.is_bare(TypeFlags { is_external_data: true, ..TypeFlags::spec_none() }),
            r.data == Some(data),
    {
        LocalExternalData::new(data, self)
    }

    /// Creates a new, empty set.
    pub fn new_set(&self) -> (r: LocalSet)
        ensures
            r.wf(),
            r.0.is_bare(TypeFlags { is_set: true, is_object: true, ..TypeFlags::spec_none() }),
            classify(r.0@.flags) == Some(Type::SetObject),
    {
        LocalSet::new(self)
    }

    /// Creates a new boolean value.
    pub fn new_bool(&self, val: bool) -> (r: LocalValueAny)
        ensures
            r@.flags == (TypeFlags { is_boolean: true, ..TypeFlags::spec_none() }),
            r@.bool_value == val,
    {
        LocalValueBoolean::new(val, self).0
    }

    /// Creates a new integer value (a `BigInt`).
    pub fn new_long(&self, val: i64) -> (r: LocalValueAny)
        ensures
            r@.flags == (TypeFlags { is_long: true, ..TypeFlags::spec_none() }),
            r@.long_value == val,
    {
        LocalValueInteger::new(val, self).0
    }

    /// Creates a new `null` value.
    pub fn new_null(&self) -> (r: LocalValueAny)
        ensures
            r.is_bare(TypeFlags { is_null: true, ..TypeFlags::spec_none() }),
    {
        LocalValueNull::new(self).0
    }

    /// Creates a new, empty object template.
    pub fn new_object_template(&self) -> (r: LocalObjectTemplate)
        ensures
            r@.entries.len() == 0,
    {
        LocalObjectTemplate::new(self)
    }

    /// Releases the isolate's lock until the unlocker goes away.
    pub fn new_unlocker(&self) -> (r: Unlocker)
        ensures
            r.released,
    {
        Unlocker::new(self)
    }
}

} // verus!
