//! A scoped V8 value whose type is not known in advance. The objects
//! it can hold can be of any JavaScript type.
use vstd::prelude::*;

verus! {

/// A type the objects of [LocalValueAny] can hold.
#[derive(Debug, Copy, Clone, PartialEq, Eq, Structural, Hash)]
pub enum Type {
    /// The `BigInt` type: numeric values too large to be represented
    /// by the number type.
    BigInteger,
    /// The `Number` type.
    Number,
    /// A boolean value.
    Boolean,
    /// The `null` value.
    Null,
    /// A `Set` object.
    SetObject,
    /// A foreign, non-JavaScript object which can be passed around in
    /// JavaScript.
    ExternalData,
    /// A JavaScript object.
    Object,
    /// An object which can resolve or reject promises.
    Resolver,
    /// A `Promise` object.
    Promise,
    /// A JavaScript function.
    Function,
    /// An asynchronous function.
    AsyncFunction,
    /// A JavaScript array.
    Array,
    /// A generic raw binary data buffer.
    ArrayBuffer,
    /// A literal string.
    String,
    /// A string object (`new String(..)`).
    StringObject,
    /// A UTF-8 encoded string.
    Utf8,
}

/// The answers the engine gives about the kind of a value. The kinds
/// overlap: an array, a function or a set is also an object.
#[derive(Debug, Copy, Clone, PartialEq, Eq, Structural)]
pub struct TypeFlags {
    pub is_array: bool,
    pub is_array_buffer: bool,
    pub is_async_function: bool,
    pub is_boolean: bool,
    pub is_external_data: bool,
    pub is_function: bool,
    pub is_long: bool,
    pub is_null: bool,
    pub is_number: bool,
    pub is_object: bool,
    pub is_promise: bool,
    pub is_set: bool,
    pub is_string: bool,
    pub is_string_object: bool,
}

impl TypeFlags {
    /// No kind at all (the engine's `undefined`).
    pub open spec fn spec_none() -> TypeFlags {
        TypeFlags {
            is_array: false,
            is_array_buffer: false,
            is_async_function: false,
            is_boolean: false,
            is_external_data: false,
            is_function: false,
            is_long: false,
            is_null: false,
            is_number: false,
            is_object: false,
            is_promise: false,
            is_set: false,
            is_string: false,
            is_string_object: false,
        }
    }

    /// The flags of a value of no known kind.
    pub fn none() -> (r: TypeFlags)
        ensures
            r == TypeFlags::spec_none(),
    {
        TypeFlags {
            is_array: false,
            is_array_buffer: false,
            is_async_function: false,
            is_boolean: false,
            is_external_data: false,
            is_function: false,
            is_long: false,
            is_null: false,
            is_number: false,
            is_object: false,
            is_promise: false,
            is_set: false,
            is_string: false,
            is_string_object: false,
        }
    }
}

/// The type a value is classified as: the first kind the engine
/// reports, in this order of precedence. The kinds of the objects that
/// are more than plain objects (an array, an array buffer, a function,
/// a promise, a set, a string object) come before the plain object
/// kind, so that such an object is classified as what it is.
pub open spec fn classify(f: TypeFlags) -> Option<Type> {
    if f.is_array {
        Some(Type::Array)
    } else if f.is_array_buffer {
        Some(Type::ArrayBuffer)
    } else if f.is_async_function {
        Some(Type::AsyncFunction)
    } else if f.is_boolean {
        Some(Type::Boolean)
    } else if f.is_external_data {
        Some(Type::ExternalData)
    } else if f.is_function {
        Some(Type::Function)
    } else if f.is_long {
        Some(Type::BigInteger)
    } else if f.is_null {
        Some(Type::Null)
    } else if f.is_number {
        Some(Type::Number)
    } else if f.is_promise {
        Some(Type::Promise)
    } else if f.is_set {
        Some(Type::SetObject)
    } else if f.is_string_object {
        Some(Type::StringObject)
    } else if f.is_object {
        Some(Type::Object)
    } else if f.is_string {
        Some(Type::String)
    } else {
        None
    }
}

/// Whether the engine reports the kind `t` for a value.
pub open spec fn reports(f: TypeFlags, t: Type) -> bool {
    match t {
        Type::Array => f.is_array,
        Type::ArrayBuffer => f.is_array_buffer,
        Type::AsyncFunction => f.is_async_function,
        Type::Boolean => f.is_boolean,
        Type::ExternalData => f.is_external_data,
        Type::Function => f.is_function,
        Type::BigInteger => f.is_long,
        Type::Null => f.is_null,
        Type::Number => f.is_number,
        Type::Object => f.is_object,
        Type::Promise => f.is_promise,
        Type::SetObject => f.is_set,
        Type::String => f.is_string,
        Type::StringObject => f.is_string_object,
        _ => false,
    }
}

/// A value is classified as a type the engine reports for it, and it
/// has no type exactly when the engine reports none of the kinds.
pub proof fn lemma_classify_reports(f: TypeFlags)
    ensures
        classify(f) matches Some(t) ==> reports(f, t),
        classify(f) is None <==> f == TypeFlags::spec_none(),
        classify(f) != Some(Type::Resolver),
        classify(f) != Some(Type::Utf8),
{
}

/// A local value for which there is no type information available:
/// a snapshot of what the engine reports about it.
pub struct LocalValueAny {
    /// The kinds the engine reports.
    pub flags: TypeFlags,
    /// The integer the engine gives back for a `BigInt`.
    pub long_value: i64,
    /// The truth value the engine gives back for a boolean.
    pub bool_value: bool,
    /// The UTF-8 string the engine converts the value to, when it can.
    pub utf8: Option<String>,
    /// The elements, for an array.
    pub elements: Vec<LocalValueAny>,
    /// The bytes, for an array buffer.
    pub bytes: Vec<u8>,
    /// The own properties, for an object, by name.
    pub properties: Vec<(String, LocalValueAny)>,
}

/// The abstract content of a [LocalValueAny].
pub struct ValueView {
    pub flags: TypeFlags,
    pub long_value: i64,
    pub bool_value: bool,
    pub utf8: Option<Seq<char>>,
    pub elements: Seq<ValueView>,
    pub bytes: Seq<u8>,
    pub properties: Seq<(Seq<char>, ValueView)>,
}

/// The abstract content of a value, element by element.
pub open spec fn value_view(v: &LocalValueAny) -> ValueView
    decreases v,
{
    ValueView {
        flags: v.flags,
        long_value: v.long_value,
        bool_value: v.bool_value,
        utf8: match v.utf8 {
            Some(s) => Some(s@),
            None => None,
        },
        elements: Seq::new(
            v.elements@.len(),
            |i: int|
                if 0 <= i < v.elements@.len() {
                    proof {
                        assert(decreases_to!(v => v.elements@[i]));
                    }
                    value_view(&v.elements@[i])
                } else {
                    arbitrary()
                },
        ),
        bytes: v.bytes@,
        properties: Seq::new(
            v.properties@.len(),
            |i: int|
                if 0 <= i < v.properties@.len() {
                    proof {
                        assert(decreases_to!(v => v.properties@[i].1));
                    }
                    (v.properties@[i].0@, value_view(&v.properties@[i].1))
                } else {
                    arbitrary()
                },
        ),
    }
}

impl View for LocalValueAny {
    type V = ValueView;

    open spec fn view(&self) -> ValueView {
        value_view(self)
    }
}

impl LocalValueAny {
    /// A value with the given kinds and payloads.
    pub fn from_parts(
        flags: TypeFlags,
        long_value: i64,
        bool_value: bool,
        utf8: Option<String>,
        elements: Vec<LocalValueAny>,
        bytes: Vec<u8>,
        properties: Vec<(String, LocalValueAny)>,
    ) -> (r: Self)
        ensures
            r == (LocalValueAny { flags, long_value, bool_value, utf8, elements, bytes, properties }),
    {
        LocalValueAny { flags, long_value, bool_value, utf8, elements, bytes, properties }
    }

    /// Returns the type of the value held if it is a known one,
    /// [`None`] otherwise.
    pub fn get_type(&self) -> (r: Option<Type>)
        ensures
            r == classify(self@.flags),
    {
        let f = self.flags;
        if f.is_array {
            Some(Type::Array)
        } else if f.is_array_buffer {
            Some(Type::ArrayBuffer)
        } else if f.is_async_function {
            Some(Type::AsyncFunction)
        } else if f.is_boolean {
            Some(Type::Boolean)
        } else if f.is_external_data {
            Some(Type::ExternalData)
        } else if f.is_function {
            Some(Type::Function)
        } else if f.is_long {
            Some(Type::BigInteger)
        } else if f.is_null {
            Some(Type::Null)
        } else if f.is_number {
            Some(Type::Number)
        } else if f.is_promise {
            Some(Type::Promise)
        } else if f.is_set {
            Some(Type::SetObject)
        } else if f.is_string_object {
            Some(Type::StringObject)
        } else if f.is_object {
            Some(Type::Object)
        } else if f.is_string {
            Some(Type::String)
        } else {
            None
        }
    }

    /// Returns `true` if the value is a string.
    pub fn is_string(&self) -> (r: bool)
        ensures
            r == self@.flags.is_string,
    {
        self.flags.is_string
    }

    /// Returns `true` if the value is a string object.
    pub fn is_string_object(&self) -> (r: bool)
        ensures
            r == self@.flags.is_string_object,
    {
        self.flags.is_string_object
    }

    /// Returns `true` if the value is an array.
    pub fn is_array(&self) -> (r: bool)
        ensures
            r == self@.flags.is_array,
    {
        self.flags.is_array
    }

    /// Returns `true` if the value is an array buffer.
    pub fn is_array_buffer(&self) -> (r: bool)
        ensures
            r == self@.flags.is_array_buffer,
    {
        self.flags.is_array_buffer
    }

    /// Returns `true` if the value is `null`.
    pub fn is_null(&self) -> (r: bool)
        ensures
            r == self@.flags.is_null,
    {
        self.flags.is_null
    }

    /// Returns `true` if the value is a function.
    pub fn is_function(&self) -> (r: bool)
        ensures
            r == self@.flags.is_function,
    {
        self.flags.is_function
    }

    /// Returns `true` if the value is an async function.
    pub fn is_async_function(&self) -> (r: bool)
        ensures
            r == self@.flags.is_async_function,
    {
        self.flags.is_async_function
    }

    /// Returns `true` if the value is a number.
    pub fn is_number(&self) -> (r: bool)
        ensures
            r == self@.flags.is_number,
    {
        self.flags.is_number
    }

    /// Returns `true` if the value is a `BigInt`.
    pub fn is_long(&self) -> (r: bool)
        ensures
            r == self@.flags.is_long,
    {
        self.flags.is_long
    }

    /// Returns the integer the value holds. The kind of the value is
    /// not checked.
    pub fn get_long(&self) -> (r: i64)
        ensures
            r == self@.long_value,
    {
        self.long_value
    }

    /// Returns `true` if the value is a boolean.
    pub fn is_boolean(&self) -> (r: bool)
        ensures
            r == self@.flags.is_boolean,
    {
        self.flags.is_boolean
    }

    /// Returns the truth value the value holds. The kind of the value
    /// is not checked.
    pub fn get_boolean(&self) -> (r: bool)
        ensures
            r == self@.bool_value,
    {
        self.bool_value
    }

    /// Returns `true` if the value is a promise.
    pub fn is_promise(&self) -> (r: bool)
        ensures
            r == self@.flags.is_promise,
    {
        self.flags.is_promise
    }

    /// Returns `true` if the value is an object.
    pub fn is_object(&self) -> (r: bool)
        ensures
            r == self@.flags.is_object,
    {
        self.flags.is_object
    }

    /// Returns `true` if the value is external data.
    pub fn is_external_data(&self) -> (r: bool)
        ensures
            r == self@.flags.is_external_data,
    {
        self.flags.is_external_data
    }

    /// Returns `true` if the value is a set.
    pub fn is_set(&self) -> (r: bool)
        ensures
            r == self@.flags.is_set,
    {
        self.flags.is_set
    }

    /// Converts the value into an owned UTF-8 string, failing when it
    /// is neither a string nor a string object, or when the engine
    /// cannot convert it.
    pub fn try_into_string(self) -> (r: Result<String, &'static str>)
        ensures
            match crate::v8::types::utf8::utf8_conversion(self@) {
                Ok(t) => r matches Ok(s) && s@ == t,
                Err(e) => r == Err::<String, &'static str>(e),
            },
    {
        match crate::v8::types::utf8::LocalUtf8::try_from_any(self) {
            Ok(u) => Ok(u.into_string()),
            Err(e) => Err(e),
        }
    }

    /// Converts the value into a truth value, failing when it is not a
    /// boolean.
    pub fn try_into_bool(self) -> (r: Result<bool, &'static str>)
        ensures
            self@.flags.is_boolean ==> r == Ok::<bool, &'static str>(self@.bool_value),
            !self@.flags.is_boolean ==> r == Err::<bool, &'static str>("Value is not a boolean"),
    {
        if !self.is_boolean() {
            return Err("Value is not a boolean");
        }
        Ok(self.get_boolean())
    }

    /// The string representation of the value, or [`None`] when it
    /// cannot be converted to UTF-8.
    pub fn into_utf8(self) -> (r: Option<crate::v8::types::utf8::LocalUtf8>)
        ensures
            match crate::v8::types::utf8::utf8_conversion(self@) {
                Ok(t) => r matches Some(u) && u.text@ == t,
                Err(_) => r is None,
            },
    {
        match crate::v8::types::utf8::LocalUtf8::try_from_any(self) {
            Ok(u) => Some(u),
            Err(_) => None,
        }
    }

    /// The string representation of the value, or [`None`] when it
    /// cannot be converted to UTF-8.
    pub fn to_utf8(&self) -> (r: Option<crate::v8::types::utf8::LocalUtf8>)
        ensures
            match crate::v8::types::utf8::utf8_conversion(self@) {
                Ok(t) => r matches Some(u) && u.text@ == t,
                Err(_) => r is None,
            },
    {
        self.duplicate().into_utf8()
    }

    /// Whether the value is one the engine reports no kind for and
    /// which holds nothing (the engine's `undefined`).
    pub open spec fn is_undefined_value(&self) -> bool {
        self.is_bare(TypeFlags::spec_none())
    }

    /// The engine's `undefined`.
    pub fn undefined() -> (r: Self)
        ensures
            r.is_undefined_value(),
    {
        Self::bare(TypeFlags::none())
    }

    /// A value with the given kinds and nothing in it.
    pub open spec fn is_bare(&self, flags: TypeFlags) -> bool {
        &&& self@.flags == flags
        &&& self@.long_value == 0
        &&& !self@.bool_value
        &&& self@.utf8 is None
        &&& self@.elements.len() == 0
        &&& self@.bytes.len() == 0
        &&& self@.properties.len() == 0
    }

    /// A new value of the given kinds, holding nothing.
    pub fn bare(flags: TypeFlags) -> (r: Self)
        ensures
            r.is_bare(flags),
    {
        let r = LocalValueAny {
            flags,
            long_value: 0,
            bool_value: false,
            utf8: None,
            elements: Vec::new(),
            bytes: Vec::new(),
            properties: Vec::new(),
        };
        assert(r@.elements.len() == 0);
        r
    }

    /// A copy of the snapshot.
    pub fn duplicate(&self) -> (r: Self)
        ensures
            r@ == self@,
        decreases self,
    {
        let mut elements: Vec<LocalValueAny> = Vec::new();
        let n = self.elements.len();
        let mut i: usize = 0;
        while i < n
            invariant
                n == self.elements@.len(),
                i <= n,
                forall|x: int| 0 <= x < i ==> (#[trigger] elements@[x])@ == self.elements@[x]@,
                elements@.len() == i,
            decreases n - i,
        {
            assert(decreases_to!(self => self.elements@[i as int]));
            let e = self.elements[i].duplicate();
            elements.push(e);
            i = i + 1;
        }
        let mut properties: Vec<(String, LocalValueAny)> = Vec::new();
        let m = self.properties.len();
        let mut j: usize = 0;
        while j < m
            invariant
                m == self.properties@.len(),
                j <= m,
                forall|x: int| 0 <= x < j ==> (#[trigger] properties@[x]).0@ == self.properties@[x].0@
                    && properties@[x].1@ == self.properties@[x].1@,
                properties@.len() == j,
            decreases m - j,
        {
            assert(decreases_to!(self => self.properties@[j as int].1));
            let name = self.properties[j].0.clone();
            let value = self.properties[j].1.duplicate();
            properties.push((name, value));
            j = j + 1;
        }
        let utf8 = match &self.utf8 {
            Some(s) => Some(s.clone()),
            None => None,
        };
        let mut bytes: Vec<u8> = Vec::new();
        let b = self.bytes.len();
        let mut k: usize = 0;
        while k < b
            invariant
                b == self.bytes@.len(),
                k <= b,
                bytes@ == self.bytes@.take(k as int),
            decreases b - k,
        {
            bytes.push(self.bytes[k]);
            k = k + 1;
            assert(bytes@ =~= self.bytes@.take(k as int));
        }
        assert(self.bytes@.take(b as int) =~= self.bytes@);
        let r = LocalValueAny {
            flags: self.flags,
            long_value: self.long_value,
            bool_value: self.bool_value,
            utf8,
            elements,
            bytes,
            properties,
        };
        assert(r@.elements =~= self@.elements);
        assert(r@.properties =~= self@.properties);
        r
    }
}

/// A value is classified by the most specific kind the engine reports
/// for it, never as a plain object when it is more than that: an array
/// is an array; an array buffer (which is also an object) is an array
/// buffer; an async function (also a function) is an async function; a
/// promise, a set or a string object (all also objects) is one, when
/// nothing more specific is reported; a value reported as an object and
/// nothing else is an object; and a value that reports nothing has no
/// type.
pub proof fn law_classified_by_most_specific_kind(f: TypeFlags)
    ensures
        f.is_array ==> classify(f) == Some(Type::Array),
        f.is_array_buffer && !f.is_array ==> classify(f) == Some(Type::ArrayBuffer),
        f.is_async_function && !f.is_array && !f.is_array_buffer ==> classify(f) == Some(
            Type::AsyncFunction,
        ),
        f.is_object && !f.is_array && !f.is_array_buffer && !f.is_async_function && !f.is_boolean
            && !f.is_external_data && !f.is_function && !f.is_long && !f.is_null && !f.is_number ==> {
            &&& f.is_promise ==> classify(f) == Some(Type::Promise)
            &&& !f.is_promise && f.is_set ==> classify(f) == Some(Type::SetObject)
            &&& !f.is_promise && !f.is_set && f.is_string_object ==> classify(f) == Some(Type::StringObject)
            &&& !f.is_promise && !f.is_set && !f.is_string_object ==> classify(f) == Some(Type::Object)
        },
        classify(f) == Some(Type::Object) ==> f.is_object && !f.is_array && !f.is_array_buffer
            && !f.is_promise && !f.is_set && !f.is_string_object && !f.is_function
            && !f.is_async_function,
        classify(f) is None <==> f == TypeFlags::spec_none(),
{
}

} // verus!
