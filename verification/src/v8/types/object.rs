//! JavaScript objects.
use vstd::prelude::*;

use super::any::{LocalValueAny, TypeFlags, ValueView};
use super::{kind_for_type, Value};
use crate::v8::context_scope::ContextScope;
use crate::v8::isolate_scope::IsolateScope;

verus! {

/// A JavaScript object.
pub struct LocalObject(pub LocalValueAny);

/// The value of the first property named `name`, if there is one.
pub open spec fn property(props: Seq<(Seq<char>, ValueView)>, name: Seq<char>) -> Option<ValueView>
    decreases props.len(),
{
    if props.len() == 0 {
        None
    } else if props[0].0 == name {
        Some(props[0].1)
    } else {
        property(props.drop_first(), name)
    }
}

impl LocalObject {
    /// The value is an object.
    pub open spec fn wf(&self) -> bool {
        self.0@.flags.is_object
    }

    /// Creates a new object with no properties.
    pub fn new(isolate_scope: &IsolateScope) -> (r: Self)
        ensures
            r.wf(),
            r.0.is_bare(TypeFlags { is_object: true, ..TypeFlags::spec_none() }),
            super::any::classify(r.0@.flags) == Some(super::any::Type::Object),
    {
        let mut flags = TypeFlags::none();
        flags.is_object = true;
        LocalObject(LocalValueAny::bare(flags))
    }

    /// The value of the property named `key`; `undefined` when there is
    /// no such property.
    pub fn get_property(&self, key: &str) -> (r: LocalValueAny)
        ensures
            match property(self.0@.properties, key@) {
                Some(v) => r@ == v,
                None => r.is_undefined_value(),
            },
    {
        let key_string = String::from_str(key);
        let n = self.0.properties.len();
        let mut i: usize = 0;
        assert(self.0@.properties.skip(0) =~= self.0@.properties);
        while i < n
            invariant
                n == self.0.properties@.len(),
                n == self.0@.properties.len(),
                key_string@ == key@,
                i <= n,
                property(self.0@.properties, key@) == property(self.0@.properties.skip(i as int), key@),
            decreases n - i,
        {
            let ghost rest = self.0@.properties.skip(i as int);
            assert(rest[0] == self.0@.properties[i as int]);
            if self.0.properties[i].0.eq(&key_string) {
                return self.0.properties[i].1.duplicate();
            }
            assert(rest.drop_first() =~= self.0@.properties.skip(i + 1));
            i = i + 1;
        }
        LocalValueAny::undefined()
    }

    /// The value of the property named `key` (an object read gives
    /// `undefined` for a missing property).
    pub fn get_str_field<'s, 'i, T>(&self, ctx_scope: &ContextScope<'s, 'i, T>, key: &str) -> (r: Option<Value>)
        ensures
            r matches Some(v) && match property(self.0@.properties, key@) {
                Some(p) => v.any() == Some(p) && v.kind() == kind_for_type(super::any::classify(p.flags)),
                None => v.kind() == kind_for_type(None) && (v matches Value::Other(o) && o.is_undefined_value()),
            },
    {
        let value = self.get_property(key);
        Some(Value::from_any(value))
    }

    /// Converts a value into an object, failing when it is not one.
    pub fn try_from_any(value: LocalValueAny) -> (r: Result<Self, &'static str>)
        ensures
            value@.flags.is_object ==> (r matches Ok(a) && a.0@ == value@),
            !value@.flags.is_object ==> r == Err::<Self, &'static str>("Value is not an object"),
    {
        if !value.is_object() {
            return Err("Value is not an object");
        }
        Ok(LocalObject(value))
    }
}

} // verus!
