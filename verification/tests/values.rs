use v8_rs::v8::v8_value::V8PersistValue;
use v8_rs::v8::isolate::V8Isolate;
use v8_rs::v8::types::any::{LocalValueAny, Type, TypeFlags};
use v8_rs::v8::types::array::LocalArray;
use v8_rs::v8::types::object::LocalObject;
use v8_rs::v8::types::object_template::LocalObjectTemplate;
use v8_rs::v8::types::set::LocalSet;
use v8_rs::v8::types::utf8::LocalUtf8;
use v8_rs::v8::types::Value;

fn with_flags(set: impl Fn(&mut TypeFlags)) -> LocalValueAny {
    let mut flags = TypeFlags::none();
    set(&mut flags);
    LocalValueAny::bare(flags)
}

fn string(s: &str) -> LocalValueAny {
    let mut v = with_flags(|f| f.is_string = true);
    v.utf8 = Some(s.to_string());
    v
}

#[test]
fn type_precedence() {
    // An array is also an object: it is classified as an array.
    let array = with_flags(|f| {
        f.is_array = true;
        f.is_object = true;
    });
    assert_eq!(array.get_type(), Some(Type::Array));
    // A set is also an object; it is classified as a set.
    let set = with_flags(|f| {
        f.is_set = true;
        f.is_object = true;
    });
    assert_eq!(set.get_type(), Some(Type::SetObject));
    // Likewise a promise and a string object.
    let promise = with_flags(|f| {
        f.is_promise = true;
        f.is_object = true;
    });
    assert_eq!(promise.get_type(), Some(Type::Promise));
    let string_object = with_flags(|f| {
        f.is_string_object = true;
        f.is_object = true;
    });
    assert_eq!(string_object.get_type(), Some(Type::StringObject));
    assert_eq!(with_flags(|f| f.is_object = true).get_type(), Some(Type::Object));
    // An async function is also a function.
    let f = with_flags(|f| {
        f.is_async_function = true;
        f.is_function = true;
    });
    assert_eq!(f.get_type(), Some(Type::AsyncFunction));
    // A BigInt reported as a number too is a big integer.
    let n = with_flags(|f| {
        f.is_long = true;
        f.is_number = true;
    });
    assert_eq!(n.get_type(), Some(Type::BigInteger));
    assert_eq!(with_flags(|f| f.is_number = true).get_type(), Some(Type::Number));
    assert_eq!(with_flags(|f| f.is_string_object = true).get_type(), Some(Type::StringObject));
    assert_eq!(LocalValueAny::undefined().get_type(), None);
}

#[test]
fn value_variants() {
    assert!(matches!(Value::from_any(string("a")), Value::String(_)));
    let long = with_flags(|f| f.is_long = true);
    assert!(matches!(Value::from_any(long), Value::Integer(_)));
    assert!(matches!(Value::from_any(with_flags(|f| f.is_null = true)), Value::Null(_)));
    assert!(matches!(Value::from_any(with_flags(|f| f.is_boolean = true)), Value::Other(_)));
    assert!(matches!(Value::from_any(LocalValueAny::undefined()), Value::Other(_)));
}

#[test]
fn value_conversions() {
    let isolate = V8Isolate::new();
    let i_scope = isolate.enter();
    assert_eq!(Value::from_i64(42, &i_scope).try_into_i64(), Ok(42));
    assert_eq!(Value::from_bool(true, &i_scope).try_into_bool(), Ok(true));
    assert_eq!(Value::new_string("foo", &i_scope).try_into_string(), Ok("foo".to_string()));
    assert_eq!(Value::new_null(&i_scope).try_into_i64(), Err("Value is not a long."));
    assert_eq!(Value::new_null(&i_scope).try_into_bool(), Err("Value is not a long."));
    assert_eq!(Value::<()>::Other(LocalValueAny::undefined()).try_into_bool(), Err("Value is not a boolean."));
    assert!(Value::from_i64(1, &i_scope).try_into_array().is_err());
}

#[test]
fn utf8_conversion() {
    assert_eq!(LocalUtf8::try_from_any(string("text")).ok().unwrap().as_str(), "text");
    let number = with_flags(|f| f.is_number = true);
    assert_eq!(LocalUtf8::try_from_any(number).err(), Some("Value is not string"));
    let mut broken = string("x");
    broken.utf8 = None;
    assert_eq!(LocalUtf8::try_from_any(broken).err(), Some("Failed converting to utf8"));
    assert_eq!(string("v").to_utf8().unwrap().as_str(), "v");
}

#[test]
fn object_properties() {
    let mut obj = with_flags(|f| f.is_object = true);
    obj.properties = vec![("foo".to_string(), string("bar")), ("foo".to_string(), string("later"))];
    let obj = LocalObject::try_from_any(obj).ok().unwrap();
    assert_eq!(obj.get_property("foo").to_utf8().unwrap().as_str(), "bar");
    let missing = obj.get_property("baz");
    assert_eq!(missing.get_type(), None);
    assert_eq!(
        LocalObject::try_from_any(string("x")).err(),
        Some("Value is not an object")
    );
}

#[test]
fn array_iteration() {
    let isolate = V8Isolate::new();
    let i_scope = isolate.enter();
    let ctx = i_scope.new_context::<u32>(None);
    let ctx_scope = ctx.enter(&i_scope);
    let a = string("a");
    let b = string("b");
    let array = LocalArray::new(&[&a, &b], &i_scope);
    assert_eq!(array.len(), 2);
    assert!(!array.is_empty());
    assert_eq!(array.get(&ctx_scope, 1).to_utf8().unwrap().as_str(), "b");
    let mut it = array.iter(&ctx_scope);
    assert_eq!(it.next().unwrap().to_utf8().unwrap().as_str(), "a");
    assert_eq!(it.next().unwrap().to_utf8().unwrap().as_str(), "b");
    assert!(it.next().is_none());
}

#[test]
fn set_conversion() {
    let isolate = V8Isolate::new();
    let i_scope = isolate.enter();
    let s = LocalSet::new(&i_scope);
    assert_eq!(s.0.get_type(), Some(Type::SetObject));
    assert!(matches!(Value::from_any(s.0), Value::SetObject(_)));
    assert_eq!(LocalSet::try_from_any(string("x")).err(), Some("Value is not a set"));
}

#[test]
fn object_template_entries() {
    let isolate = V8Isolate::new();
    let i_scope = isolate.enter();
    let mut inner = LocalObjectTemplate::new(&i_scope);
    inner.add_value("x", &string("1"));
    let mut globals = LocalObjectTemplate::new(&i_scope);
    globals.add_object("inner", &inner);
    globals.add_value("name", &string("n"));
    assert_eq!(globals.entries.len(), 2);
    assert_eq!(globals.entries[0].0, "inner");
    assert_eq!(globals.entries[1].0, "name");
    let copy = globals.duplicate();
    assert_eq!(copy.entries.len(), 2);
}

#[test]
fn persisted_values() {
    let isolate = V8Isolate::new();
    let i_scope = isolate.enter();
    let v = string("kept");
    let mut p = v.persist();
    assert!(!p.forget);
    assert_eq!(p.as_local(&i_scope).to_utf8().unwrap().as_str(), "kept");
    p.forget();
    assert!(p.forget);
    assert_eq!(p.take_local(&i_scope).to_utf8().unwrap().as_str(), "kept");
}

#[test]
fn duplicate_is_deep() {
    let mut outer = with_flags(|f| {
        f.is_array = true;
        f.is_object = true;
    });
    outer.elements = vec![string("a"), string("b")];
    let copy = outer.duplicate();
    assert_eq!(copy.elements.len(), 2);
    assert_eq!(copy.elements[1].to_utf8().unwrap().as_str(), "b");
}

#[test]
fn simple_isolate_creation() {
    let isolate = V8Isolate::new();
    let _i_scope = isolate.enter();
}

#[test]
fn simple_string_creation() {
    let isolate = V8Isolate::new();
    let isolate_scope = isolate.enter();
    let _s = isolate_scope.new_string("test");
}

#[test]
fn simple_object_creation() {
    let isolate = V8Isolate::new();
    let isolate_scope = isolate.enter();
    let _o = isolate_scope.new_object_template();
}

#[test]
fn isolate_scope_factories() {
    let isolate = V8Isolate::new();
    let s = isolate.enter();
    assert_eq!(s.new_string("x").to_string(), Ok("x".to_string()));
    assert_eq!(s.new_long(-3).get_long(), -3);
    assert!(s.new_bool(true).get_boolean());
    assert!(s.new_null().is_null());
    assert_eq!(s.new_array_buffer(&[1, 2]).data(), &[1, 2]);
    let one = s.new_long(1);
    assert_eq!(s.new_array(&[&one]).len(), 1);
    assert!(s.new_object().0.is_object());
    assert!(s.new_set().0.is_set());
    assert!(s.new_external_data(5u8).value.is_external_data());
    assert!(s.new_unlocker().released);
    assert!(!s.new_try_catch().has_terminated());
}

#[test]
fn external_data_keeps_its_data() {
    let isolate = V8Isolate::new();
    let s = isolate.enter();
    let mut e = s.new_external_data(vec![1u8, 2]);
    assert_eq!(e.value.get_type(), Some(Type::ExternalData));
    assert_eq!(e.get_data(), &vec![1u8, 2]);
    e.get_data_mut().push(3);
    assert_eq!(e.get_data(), &vec![1u8, 2, 3]);
    match Value::new_external_data(String::from("payload"), &s) {
        Value::ExternalData(d) => assert_eq!(d.get_data(), "payload"),
        _ => panic!("external data is wrapped as such"),
    }
}

#[test]
fn persisted_value_taken_back_is_forgotten() {
    let isolate = V8Isolate::new();
    let s = isolate.enter();
    let mut p = V8PersistValue::from(string("kept").persist());
    assert!(!p.0.forget);
    assert_eq!(p.as_local(&s).to_utf8().unwrap().as_str(), "kept");
    let v = p.take_local(&s);
    assert_eq!(v.to_utf8().unwrap().as_str(), "kept");
    assert!(p.0.inner_val.is_none());
    assert!(p.0.forget);
}

#[test]
fn array_iteration_matches_get() {
    let isolate = V8Isolate::new();
    let i_scope = isolate.enter();
    let ctx = i_scope.new_context::<u32>(None);
    let ctx_scope = ctx.enter(&i_scope);
    let values = [string("x"), string("y"), string("z")];
    let refs: Vec<&LocalValueAny> = values.iter().collect();
    let array = LocalArray::new(&refs, &i_scope);
    let mut it = array.iter(&ctx_scope);
    for k in 0..array.len() {
        let got = it.next().unwrap();
        assert_eq!(got.to_utf8().unwrap().as_str(), array.get(&ctx_scope, k).to_utf8().unwrap().as_str());
    }
    assert!(it.next().is_none());
    assert!(it.next().is_none());
}
