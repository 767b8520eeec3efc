use v8_rs::v8::argument_binding::{ArgType, ArgValue};
use v8_rs::v8::object_argument::{bind_object, FieldSpec, FieldType, FieldValue};
use v8_rs::v8::types::any::{LocalValueAny, TypeFlags};

fn value(set: impl Fn(&mut TypeFlags)) -> LocalValueAny {
    let mut flags = TypeFlags::none();
    set(&mut flags);
    LocalValueAny::bare(flags)
}

fn long(n: i64) -> LocalValueAny {
    let mut v = value(|f| {
        f.is_long = true;
        f.is_number = true;
    });
    v.long_value = n;
    v
}

fn string(s: &str) -> LocalValueAny {
    let mut v = value(|f| f.is_string = true);
    v.utf8 = Some(s.to_string());
    v
}

fn boolean(b: bool) -> LocalValueAny {
    let mut v = value(|f| f.is_boolean = true);
    v.bool_value = b;
    v
}

fn object(properties: Vec<(&str, LocalValueAny)>) -> LocalValueAny {
    let mut v = value(|f| f.is_object = true);
    v.properties = properties.into_iter().map(|(k, p)| (k.to_string(), p)).collect();
    v
}

fn field(name: &str, ty: ArgType, optional: bool) -> FieldSpec {
    FieldSpec { name: name.to_string(), ty: FieldType::Plain(ty), optional }
}

fn inner_args() -> Vec<FieldSpec> {
    vec![field("i", ArgType::Long, false)]
}

/// The fields of the structure of the derive's documentation.
fn args_fields() -> Vec<FieldSpec> {
    vec![
        field("i", ArgType::Long, false),
        field("s", ArgType::Text, false),
        field("b", ArgType::Boolean, false),
        field("o", ArgType::Text, true),
        FieldSpec { name: "inner".to_string(), ty: FieldType::Structure(inner_args()), optional: false },
        FieldSpec { name: "optional_inner".to_string(), ty: FieldType::Structure(inner_args()), optional: true },
    ]
}

#[test]
fn documented_object_is_bound() {
    // {i: 1, s: 'foo', b: false, inner: {i: 10} }
    let arg = object(vec![
        ("i", long(1)),
        ("s", string("foo")),
        ("b", boolean(false)),
        ("inner", object(vec![("i", long(10))])),
    ]);
    let values = bind_object(&arg, &args_fields()).ok().unwrap();
    assert_eq!(values.len(), 6);
    assert!(matches!(&values[0], Some(FieldValue::Plain(ArgValue::Long(1)))));
    assert!(matches!(&values[1], Some(FieldValue::Plain(ArgValue::Text(s))) if s == "foo"));
    assert!(matches!(&values[2], Some(FieldValue::Plain(ArgValue::Boolean(false)))));
    assert!(values[3].is_none());
    match &values[4] {
        Some(FieldValue::Structure(inner)) => {
            assert!(matches!(&inner[0], Some(FieldValue::Plain(ArgValue::Long(10)))))
        }
        _ => panic!("the inner structure is built"),
    }
    assert!(values[5].is_none());
}

#[test]
fn optional_field_null_is_none() {
    let arg = object(vec![("i", long(1)), ("o", value(|f| f.is_null = true))]);
    let fields = vec![field("i", ArgType::Long, false), field("o", ArgType::Text, true)];
    let values = bind_object(&arg, &fields).ok().unwrap();
    assert!(values[1].is_none());
}

#[test]
fn object_binding_errors() {
    let fields = inner_args();
    assert_eq!(bind_object(&long(1), &fields).err().unwrap(), "Given argument must be an object");
    assert_eq!(bind_object(&object(vec![]), &fields).err().unwrap(), "i was not given");
    assert_eq!(
        bind_object(&object(vec![("i", value(|f| f.is_null = true))]), &fields).err().unwrap(),
        "Field i does not exists."
    );
    assert_eq!(
        bind_object(&object(vec![("i", LocalValueAny::undefined())]), &fields).err().unwrap(),
        "Field i does not exists."
    );
    assert_eq!(
        bind_object(&object(vec![("i", string("x"))]), &fields).err().unwrap(),
        "Failed getting field i, Value is not long."
    );
    assert_eq!(
        bind_object(&object(vec![("i", long(1)), ("x", long(2)), ("y", long(3))]), &fields).err().unwrap(),
        "Unknown properties given: x,y"
    );
}

#[test]
fn nested_structure_errors() {
    let fields = vec![FieldSpec { name: "inner".to_string(), ty: FieldType::Structure(inner_args()), optional: false }];
    assert_eq!(
        bind_object(&object(vec![("inner", object(vec![]))]), &fields).err().unwrap(),
        "Failed getting field inner, i was not given."
    );
    assert_eq!(
        bind_object(&object(vec![("inner", long(3))]), &fields).err().unwrap(),
        "Failed getting field inner, Given argument must be an object."
    );
    assert_eq!(
        bind_object(&object(vec![("inner", object(vec![("i", long(1)), ("z", long(2))]))]), &fields)
            .err()
            .unwrap(),
        "Failed getting field inner, Unknown properties given: z."
    );
}

#[test]
fn field_errors_come_before_unknown_properties() {
    let fields = inner_args();
    assert_eq!(
        bind_object(&object(vec![("x", long(2))]), &fields).err().unwrap(),
        "i was not given"
    );
}
