//! The JavaScript values.
use vstd::prelude::*;

pub mod any;
pub mod array;
pub mod array_buffer;
pub mod external_data;
pub mod native_function_template;
pub mod object;
pub mod object_template;
pub mod persistent;
pub mod set;
pub mod string;
pub mod try_catch;
pub mod unlocker;
pub mod utf8;

use self::any::{classify, LocalValueAny, Type, TypeFlags, ValueView};
use self::array::LocalArray;
use self::array_buffer::LocalArrayBuffer;
use self::external_data::LocalExternalData;
use self::object::LocalObject;
use self::object_template::LocalObjectTemplate;
use self::set::LocalSet;
use self::string::LocalString;
use self::try_catch::TryCatch;
use self::unlocker::Unlocker;
use self::utf8::{utf8_conversion, LocalUtf8};
use crate::v8::isolate_scope::IsolateScope;

verus! {

/// A JavaScript number.
pub struct LocalValueDouble(pub LocalValueAny);

impl LocalValueDouble {
    /// Converts a value into a number, failing when it is not one.
    pub fn try_from_any(value: LocalValueAny) -> (r: Result<Self, &'static str>)
        ensures
            value@.flags.is_number ==> (r matches Ok(a) && a.0@ == value@),
            !value@.flags.is_number ==> r == Err::<Self, &'static str>("Value is not a number"),
    {
        if !value.is_number() {
            return Err("Value is not a number");
        }
        Ok(LocalValueDouble(value))
    }
}

/// A JavaScript integer (a `BigInt`).
pub struct LocalValueInteger(pub LocalValueAny);

impl LocalValueInteger {
    /// Creates a new integer value holding `value`.
    pub fn new(value: i64, isolate_scope: &IsolateScope) -> (r: Self)
        ensures
            r.0@.flags == (TypeFlags { is_long: true, ..TypeFlags::spec_none() }),
            r.0@.long_value == value,
    {
        let mut flags = TypeFlags::none();
        flags.is_long = true;
        let mut v = LocalValueAny::bare(flags);
        v.long_value = value;
        LocalValueInteger(v)
    }

    /// The integer held.
    pub fn get(&self) -> (r: i64)
        ensures
            r == self.0@.long_value,
    {
        self.0.get_long()
    }

    /// Converts a value into an integer, failing when it is not one.
    pub fn try_from_any(value: LocalValueAny) -> (r: Result<Self, &'static str>)
        ensures
            value@.flags.is_long ==> (r matches Ok(a) && a.0@ == value@),
            !value@.flags.is_long ==> r == Err::<Self, &'static str>("Value is not a long"),
    {
        if !value.is_long() {
            return Err("Value is not a long");
        }
        Ok(LocalValueInteger(value))
    }
}

/// A JavaScript boolean.
pub struct LocalValueBoolean(pub LocalValueAny);

impl LocalValueBoolean {
    /// Creates a new boolean value holding `value`.
    pub fn new(value: bool, isolate_scope: &IsolateScope) -> (r: Self)
        ensures
            r.0@.flags == (TypeFlags { is_boolean: true, ..TypeFlags::spec_none() }),
            r.0@.bool_value == value,
    {
        let mut flags = TypeFlags::none();
        flags.is_boolean = true;
        let mut v = LocalValueAny::bare(flags);
        v.bool_value = value;
        LocalValueBoolean(v)
    }

    /// The truth value held.
    pub fn get(&self) -> (r: bool)
        ensures
            r == self.0@.bool_value,
    {
        self.0.get_boolean()
    }

    /// Converts a value into a boolean, failing when it is not one.
    pub fn try_from_any(value: LocalValueAny) -> (r: Result<Self, &'static str>)
        ensures
            value@.flags.is_boolean ==> (r matches Ok(a) && a.0@ == value@),
            !value@.flags.is_boolean ==> r == Err::<Self, &'static str>("Value is not a boolean"),
    {
        if !value.is_boolean() {
            return Err("Value is not a boolean");
        }
        Ok(LocalValueBoolean(value))
    }
}

/// The JavaScript `null`.
pub struct LocalValueNull(pub LocalValueAny);

impl LocalValueNull {
    /// The `null` value.
    pub fn new(isolate_scope: &IsolateScope) -> (r: Self)
        ensures
            r.0.is_bare(TypeFlags { is_null: true, ..TypeFlags::spec_none() }),
    {
        let mut flags = TypeFlags::none();
        flags.is_null = true;
        LocalValueNull(LocalValueAny::bare(flags))
    }

    /// Converts a value into `null`, failing when it is not `null`.
    pub fn try_from_any(value: LocalValueAny) -> (r: Result<Self, &'static str>)
        ensures
            value@.flags.is_null ==> (r matches Ok(a) && a.0@ == value@),
            !value@.flags.is_null ==> r == Err::<Self, &'static str>("Value is not a null"),
    {
        if !value.is_null() {
            return Err("Value is not a null");
        }
        Ok(LocalValueNull(value))
    }
}

/// All the possible values a JavaScript may have with which it is
/// possible to work.
pub enum Value<D = ()> {
    /// See [LocalString].
    String(LocalString),
    /// See [LocalValueBoolean].
    Boolean(LocalValueBoolean),
    /// See [LocalValueInteger].
    Integer(LocalValueInteger),
    /// See [LocalValueDouble].
    Double(LocalValueDouble),
    /// See [LocalArrayBuffer].
    ArrayBuffer(LocalArrayBuffer),
    /// See [LocalArray].
    Array(LocalArray),
    /// See [LocalSet].
    SetObject(LocalSet),
    /// See [LocalObject].
    Object(LocalObject),
    /// See [LocalObjectTemplate].
    ObjectTemplate(LocalObjectTemplate),
    /// See [TryCatch].
    TryCatch(TryCatch),
    /// See [Unlocker].
    Unlocker(Unlocker),
    /// See [LocalValueNull].
    Null(LocalValueNull),
    /// See [LocalExternalData].
    ExternalData(LocalExternalData<D>),
    /// See [LocalValueAny].
    Other(LocalValueAny),
}

/// The variant a value of a given type is wrapped in.
pub enum ValueKind {
    String,
    Boolean,
    Integer,
    Double,
    ArrayBuffer,
    Array,
    SetObject,
    Object,
    ObjectTemplate,
    TryCatch,
    Unlocker,
    Null,
    ExternalData,
    Other,
}

/// The variant a value the engine classifies as `t` is wrapped in.
pub open spec fn kind_for_type(t: Option<Type>) -> ValueKind {
    match t {
        Some(Type::Array) => ValueKind::Array,
        Some(Type::ArrayBuffer) => ValueKind::ArrayBuffer,
        Some(Type::String) => ValueKind::String,
        Some(Type::BigInteger) => ValueKind::Integer,
        Some(Type::Number) => ValueKind::Double,
        Some(Type::SetObject) => ValueKind::SetObject,
        Some(Type::Object) => ValueKind::Object,
        Some(Type::Null) => ValueKind::Null,
        Some(Type::ExternalData) => ValueKind::ExternalData,
        _ => ValueKind::Other,
    }
}

impl<D> Value<D> {
    /// The variant of the value.
    pub open spec fn kind(&self) -> ValueKind {
        match self {
            Value::String(_) => ValueKind::String,
            Value::Boolean(_) => ValueKind::Boolean,
            Value::Integer(_) => ValueKind::Integer,
            Value::Double(_) => ValueKind::Double,
            Value::ArrayBuffer(_) => ValueKind::ArrayBuffer,
            Value::Array(_) => ValueKind::Array,
            Value::SetObject(_) => ValueKind::SetObject,
            Value::Object(_) => ValueKind::Object,
            Value::ObjectTemplate(_) => ValueKind::ObjectTemplate,
            Value::TryCatch(_) => ValueKind::TryCatch,
            Value::Unlocker(_) => ValueKind::Unlocker,
            Value::Null(_) => ValueKind::Null,
            Value::ExternalData(_) => ValueKind::ExternalData,
            Value::Other(_) => ValueKind::Other,
        }
    }

    /// The JavaScript value wrapped, for the variants that wrap one.
    pub open spec fn any(&self) -> Option<ValueView> {
        match self {
            Value::String(v) => Some(v.0@),
            Value::Boolean(v) => Some(v.0@),
            Value::Integer(v) => Some(v.0@),
            Value::Double(v) => Some(v.0@),
            Value::ArrayBuffer(v) => Some(v.0@),
            Value::Array(v) => Some(v.0@),
            Value::SetObject(v) => Some(v.0@),
            Value::Object(v) => Some(v.0@),
            Value::Null(v) => Some(v.0@),
            Value::ExternalData(v) => Some(v.value@),
            Value::Other(v) => Some(v@),
            _ => None,
        }
    }
}

impl Value {
    /// Creates a new integer value.
    pub fn from_i64(value: i64, isolate_scope: &IsolateScope) -> (r: Self)
        ensures
            r matches Value::Integer(i) && i.0@.long_value == value && i.0@.flags.is_long,
    {
        Value::Integer(LocalValueInteger::new(value, isolate_scope))
    }

    /// Creates a new boolean value.
    pub fn from_bool(value: bool, isolate_scope: &IsolateScope) -> (r: Self)
        ensures
            r matches Value::Boolean(b) && b.0@.bool_value == value && b.0@.flags.is_boolean,
    {
        Value::Boolean(LocalValueBoolean::new(value, isolate_scope))
    }

    /// Creates a new, empty object.
    pub fn new_object(isolate_scope: &IsolateScope) -> (r: Self)
        ensures
            r matches Value::Object(o) && o.wf() && o.0.is_bare(TypeFlags { is_object: true, ..TypeFlags::spec_none() })
                && classify(o.0@.flags) == Some(Type::Object),
    {
        Value::Object(LocalObject::new(isolate_scope))
    }

    /// Creates a new, empty object template.
    pub fn new_object_template(isolate_scope: &IsolateScope) -> (r: Self)
        ensures
            r matches Value::ObjectTemplate(t) && t@.entries.len() == 0,
    {
        Value::ObjectTemplate(LocalObjectTemplate::new(isolate_scope))
    }

    /// Creates a new `null` value.
    pub fn new_null(isolate_scope: &IsolateScope) -> (r: Self)
        ensures
            r matches Value::Null(n) && n.0@.flags.is_null,
    {
        Value::Null(LocalValueNull::new(isolate_scope))
    }

    /// Creates a new, empty set.
    pub fn new_set(isolate_scope: &IsolateScope) -> (r: Self)
        ensures
            r matches Value::SetObject(s) && s.wf() && s.0.is_bare(
                TypeFlags { is_set: true, is_object: true, ..TypeFlags::spec_none() },
            ) && classify(s.0@.flags) == Some(Type::SetObject),
    {
        Value::SetObject(LocalSet::new(isolate_scope))
    }

    /// Creates a new string.
    pub fn new_string(s: &str, isolate_scope: &IsolateScope) -> (r: Self)
        ensures
            r matches Value::String(ls) && ls.wf() && ls.text() == s@,
    {
        Value::String(LocalString::new(s, isolate_scope))
    }

    /// Creates a new try-catch block.
    pub fn new_try_catch(isolate_scope: &IsolateScope) -> (r: Self)
        ensures
            r matches Value::TryCatch(t) && t.exception is None && !t.terminated,
    {
        Value::TryCatch(TryCatch::new(isolate_scope))
    }

    /// Creates a new array buffer holding a copy of `bytes`.
    pub fn new_array_buffer(bytes: &[u8], isolate_scope: &IsolateScope) -> (r: Self)
        ensures
            r matches Value::ArrayBuffer(b) && b.wf() && b.0@.bytes == bytes@ && classify(b.0@.flags) == Some(
                Type::ArrayBuffer,
            ),
    {
        Value::ArrayBuffer(LocalArrayBuffer::new(bytes, isolate_scope))
    }

    /// Creates a new array holding the given values, in order.
    pub fn new_array(values: &[&LocalValueAny], isolate_scope: &IsolateScope) -> (r: Self)
        ensures
            r matches Value::Array(a) && a.wf() && a.elements().len() == values@.len()
                && forall|i: int| 0 <= i < values@.len() ==> #[trigger] a.elements()[i] == values@[i]@,
    {
        Value::Array(LocalArray::new(values, isolate_scope))
    }

    /// Releases the isolate's lock until the unlocker goes away.
    pub fn new_unlocker(isolate_scope: &IsolateScope) -> (r: Self)
        ensures
            r matches Value::Unlocker(u) && u.released,
    {
        Value::Unlocker(Unlocker::new(isolate_scope))
    }

    /// Wraps a value in the variant of the type the engine classifies
    /// it as (see [`LocalValueAny::get_type`]); a value of any other
    /// type is kept as [`Value::Other`].
    pub fn from_any(value: LocalValueAny) -> (r: Self)
        ensures
            r.kind() == kind_for_type(classify(value@.flags)),
            r.any() == Some(value@),
    {
        match value.get_type() {
            Some(Type::Array) => Value::Array(LocalArray(value)),
            Some(Type::ArrayBuffer) => Value::ArrayBuffer(LocalArrayBuffer(value)),
            Some(Type::String) => Value::String(LocalString(value)),
            Some(Type::BigInteger) => Value::Integer(LocalValueInteger(value)),
            Some(Type::Number) => Value::Double(LocalValueDouble(value)),
            Some(Type::SetObject) => Value::SetObject(LocalSet(value)),
            Some(Type::Object) => Value::Object(LocalObject(value)),
            Some(Type::Null) => Value::Null(LocalValueNull(value)),
            Some(Type::ExternalData) => Value::ExternalData(LocalExternalData { value, data: None }),
            _ => Value::Other(value),
        }
    }
}

impl<D> Value<D> {
    /// Converts the value into an integer: an integer value, or any
    /// other value the engine reports as a `BigInt`.
    pub fn try_into_i64(self) -> (r: Result<i64, &'static str>)
        ensures
            match self {
                Value::Integer(i) => r == Ok::<i64, &'static str>(i.0@.long_value),
                Value::Other(any) => if any@.flags.is_long {
                    r == Ok::<i64, &'static str>(any@.long_value)
                } else {
                    r == Err::<i64, &'static str>("Value is not a long.")
                },
                _ => r == Err::<i64, &'static str>("Value is not a long."),
            },
    {
        match self {
            Value::Integer(i) => Ok(i.get()),
            Value::Other(any) => {
                if !any.is_long() {
                    return Err("Value is not a long.");
                }
                Ok(any.get_long())
            },
            _ => Err("Value is not a long."),
        }
    }

    /// Converts the value into a truth value: a boolean value, or any
    /// other value the engine reports as a boolean.
    pub fn try_into_bool(self) -> (r: Result<bool, &'static str>)
        ensures
            match self {
                Value::Boolean(b) => r == Ok::<bool, &'static str>(b.0@.bool_value),
                Value::Other(any) => if any@.flags.is_boolean {
                    r == Ok::<bool, &'static str>(any@.bool_value)
                } else {
                    r == Err::<bool, &'static str>("Value is not a boolean.")
                },
                _ => r == Err::<bool, &'static str>("Value is not a long."),
            },
    {
        match self {
            Value::Boolean(b) => Ok(b.get()),
            Value::Other(any) => {
                if !any.is_boolean() {
                    return Err("Value is not a boolean.");
                }
                Ok(any.get_boolean())
            },
            _ => Err("Value is not a long."),
        }
    }

    /// Converts the value into an owned string: a string value (which
    /// the engine must be able to convert to UTF-8), or any other value
    /// that converts to UTF-8.
    pub fn try_into_string(self) -> (r: Result<String, &'static str>)
        requires
            self matches Value::String(ls) ==> ls.0@.utf8 is Some,
        ensures
            match self {
                Value::String(ls) => r matches Ok(s) && Some(s@) == ls.0@.utf8,
                Value::Other(any) => match utf8_conversion(any@) {
                    Ok(t) => r matches Ok(s) && s@ == t,
                    Err(e) => r == Err::<String, &'static str>(e),
                },
                _ => r == Err::<String, &'static str>("Value is not a string."),
            },
    {
        match self {
            Value::String(ls) => {
                let LocalString(any) = ls;
                match any.utf8 {
                    Some(text) => Ok(text),
                    None => Ok(String::new()),
                }
            },
            Value::Other(any) => any.try_into_string(),
            _ => Err("Value is not a string."),
        }
    }

    /// Converts the value into a string value.
    pub fn try_into_local_string(self) -> (r: Result<LocalString, &'static str>)
        ensures
            match self {
                Value::String(ls) => r matches Ok(s) && s.0@ == ls.0@,
                Value::Other(any) => if any@.flags.is_string {
                    r matches Ok(s) && s.0@ == any@
                } else {
                    r == Err::<LocalString, &'static str>("Value is not a string")
                },
                _ => r == Err::<LocalString, &'static str>("Value is not a string."),
            },
    {
        match self {
            Value::String(ls) => Ok(ls),
            Value::Other(any) => LocalString::try_from_any(any),
            _ => Err("Value is not a string."),
        }
    }

    /// Converts the value into a UTF-8 string.
    pub fn try_into_utf8(self) -> (r: Result<LocalUtf8, &'static str>)
        ensures
            match self {
                Value::String(ls) => match utf8_conversion(ls.0@) {
                    Ok(t) => r matches Ok(u) && u.text@ == t,
                    Err(e) => r == Err::<LocalUtf8, &'static str>(e),
                },
                Value::Other(any) => match utf8_conversion(any@) {
                    Ok(t) => r matches Ok(u) && u.text@ == t,
                    Err(e) => r == Err::<LocalUtf8, &'static str>(e),
                },
                _ => r == Err::<LocalUtf8, &'static str>("Value is not string"),
            },
    {
        match self {
            Value::String(s) => LocalUtf8::try_from_any(s.0),
            Value::Other(any) => LocalUtf8::try_from_any(any),
            _ => Err("Value is not string"),
        }
    }

    /// Converts the value into an array.
    pub fn try_into_array(self) -> (r: Result<LocalArray, &'static str>)
        ensures
            match self {
                Value::Array(a) => r matches Ok(x) && x.0@ == a.0@,
                Value::Other(any) => if any@.flags.is_array {
                    r matches Ok(x) && x.0@ == any@
                } else {
                    r == Err::<LocalArray, &'static str>("Value is not an array")
                },
                _ => r == Err::<LocalArray, &'static str>("Value is not an array"),
            },
    {
        match self {
            Value::Array(a) => Ok(a),
            Value::Other(any) => LocalArray::try_from_any(any),
            _ => Err("Value is not an array"),
        }
    }

    /// Converts the value into an array buffer.
    pub fn try_into_array_buffer(self) -> (r: Result<LocalArrayBuffer, &'static str>)
        ensures
            match self {
                Value::ArrayBuffer(a) => r matches Ok(x) && x.0@ == a.0@,
                Value::Other(any) => if any@.flags.is_array_buffer {
                    r matches Ok(x) && x.0@ == any@
                } else {
                    r == Err::<LocalArrayBuffer, &'static str>("Value is not an array buffer")
                },
                _ => r == Err::<LocalArrayBuffer, &'static str>("Value is not an array buffer"),
            },
    {
        match self {
            Value::ArrayBuffer(a) => Ok(a),
            Value::Other(any) => LocalArrayBuffer::try_from_any(any),
            _ => Err("Value is not an array buffer"),
        }
    }

    /// Converts the value into an object.
    pub fn try_into_object(self) -> (r: Result<LocalObject, &'static str>)
        ensures
            match self {
                Value::Object(a) => r matches Ok(x) && x.0@ == a.0@,
                Value::Other(any) => if any@.flags.is_object {
                    r matches Ok(x) && x.0@ == any@
                } else {
                    r == Err::<LocalObject, &'static str>("Value is not an object")
                },
                _ => r == Err::<LocalObject, &'static str>("Value is not an object"),
            },
    {
        match self {
            Value::Object(a) => Ok(a),
            Value::Other(any) => LocalObject::try_from_any(any),
            _ => Err("Value is not an object"),
        }
    }

    /// Converts the value into a set.
    pub fn try_into_set(self) -> (r: Result<LocalSet, &'static str>)
        ensures
            match self {
                Value::SetObject(a) => r matches Ok(x) && x.0@ == a.0@,
                Value::Other(any) => if any@.flags.is_set {
                    r matches Ok(x) && x.0@ == any@
                } else {
                    r == Err::<LocalSet, &'static str>("Value is not a set")
                },
                _ => r == Err::<LocalSet, &'static str>("Value is not a set"),
            },
    {
        match self {
            Value::SetObject(a) => Ok(a),
            Value::Other(any) => LocalSet::try_from_any(any),
            _ => Err("Value is not a set"),
        }
    }

    /// Converts the value into an object template.
    pub fn try_into_object_template(self) -> (r: Result<LocalObjectTemplate, &'static str>)
        ensures
            match self {
                Value::ObjectTemplate(t) => r matches Ok(x) && x@ == t@,
                _ => r == Err::<LocalObjectTemplate, &'static str>("Value is not a promise"),
            },
    {
        match self {
            Value::ObjectTemplate(t) => Ok(t),
            _ => Err("Value is not a promise"),
        }
    }

    /// Converts the value into a try-catch block.
    pub fn try_into_try_catch(self) -> (r: Result<TryCatch, &'static str>)
        ensures
            match self {
                Value::TryCatch(t) => r == Ok::<TryCatch, &'static str>(t),
                _ => r == Err::<TryCatch, &'static str>("Value is not a try catch"),
            },
    {
        match self {
            Value::TryCatch(t) => Ok(t),
            _ => Err("Value is not a try catch"),
        }
    }

    /// The JavaScript value wrapped; templates, try-catch blocks and
    /// unlockers are not JavaScript values.
    pub fn try_into_any(self) -> (r: Result<LocalValueAny, &'static str>)
        ensures
            match self.any() {
                Some(v) => r matches Ok(x) && x@ == v,
                None => r == Err::<LocalValueAny, &'static str>("Couldn't convert to any"),
            },
    {
        match self {
            Value::Array(a) => Ok(a.0),
            Value::ArrayBuffer(a) => Ok(a.0),
            Value::Boolean(b) => Ok(b.0),
            Value::Integer(i) => Ok(i.0),
            Value::Double(d) => Ok(d.0),
            Value::Null(n) => Ok(n.0),
            Value::String(s) => Ok(s.0),
            Value::SetObject(s) => Ok(s.0),
            Value::Object(o) => Ok(o.0),
            Value::ExternalData(e) => Ok(e.value),
            Value::Other(any) => Ok(any),
            _ => Err("Couldn't convert to any"),
        }
    }
}

impl<D> Value<D> {
    /// Hands `data` to the engine as external data; the value keeps the
    /// data.
    pub fn new_external_data(data: D, isolate_scope: &IsolateScope) -> (r: Self)
        ensures
            r matches Value::ExternalData(e) && e.wf() && e.data == Some(data) && e.value.is_bare(
                TypeFlags { is_external_data: true, ..TypeFlags::spec_none() },
            ),
    {
        Value::ExternalData(LocalExternalData::new(data, isolate_scope))
    }
}

/// [`Value::from_any`] wraps a value in the variant of its type: an
/// array, an array buffer, a string, a big integer, a number, a set, an
/// object, `null` and external data each in their own variant, and a
/// value of any other type (a boolean, a function, a promise, a string
/// object) or of no known type as [`Value::Other`]; the value itself is
/// kept unchanged.
pub proof fn law_value_variant_by_type(f: TypeFlags)
    ensures
        kind_for_type(classify(f)) == match classify(f) {
            Some(Type::Array) => ValueKind::Array,
            Some(Type::ArrayBuffer) => ValueKind::ArrayBuffer,
            Some(Type::String) => ValueKind::String,
            Some(Type::BigInteger) => ValueKind::Integer,
            Some(Type::Number) => ValueKind::Double,
            Some(Type::SetObject) => ValueKind::SetObject,
            Some(Type::Object) => ValueKind::Object,
            Some(Type::Null) => ValueKind::Null,
            Some(Type::ExternalData) => ValueKind::ExternalData,
            _ => ValueKind::Other,
        },
        f.is_set && !f.is_array && !f.is_array_buffer && !f.is_async_function && !f.is_boolean
            && !f.is_external_data && !f.is_function && !f.is_long && !f.is_null && !f.is_number
            && !f.is_promise ==> kind_for_type(classify(f)) == ValueKind::SetObject,
        f.is_array ==> kind_for_type(classify(f)) == ValueKind::Array,
        f.is_array_buffer && !f.is_array ==> kind_for_type(classify(f)) == ValueKind::ArrayBuffer,
        f.is_object && !f.is_array && !f.is_array_buffer && !f.is_async_function && !f.is_boolean
            && !f.is_external_data && !f.is_function && !f.is_long && !f.is_null && !f.is_number
            && !f.is_promise && !f.is_set && !f.is_string_object ==> kind_for_type(classify(f))
            == ValueKind::Object,
{
}

} // verus!
