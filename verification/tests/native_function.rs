use v8_rs::v8::argument_binding::{
    bind_arguments, call_native, check_signature, convert_argument, decimal_string, ArgType,
    ArgValue, BoundArg, CallOutcome, Param, ParamKind,
};
use v8_rs::v8::types::any::{LocalValueAny, TypeFlags};
use v8_rs::v8::v8_native_function_template::V8LocalNativeFunctionArgs;

fn value(flags: TypeFlags) -> LocalValueAny {
    LocalValueAny::from_parts(flags, 0, false, None, Vec::new(), Vec::new(), Vec::new())
}

/// A JavaScript integer, as the engine reports it.
fn js_int(n: i64) -> LocalValueAny {
    let mut flags = TypeFlags::none();
    flags.is_long = true;
    flags.is_number = true;
    let mut v = value(flags);
    v.long_value = n;
    v
}

fn string(s: &str) -> LocalValueAny {
    let mut flags = TypeFlags::none();
    flags.is_string = true;
    let mut v = value(flags);
    v.utf8 = Some(s.to_string());
    v
}

fn boolean(b: bool) -> LocalValueAny {
    let mut flags = TypeFlags::none();
    flags.is_boolean = true;
    let mut v = value(flags);
    v.bool_value = b;
    v
}

fn array(elements: Vec<LocalValueAny>) -> LocalValueAny {
    let mut flags = TypeFlags::none();
    flags.is_array = true;
    flags.is_object = true;
    let mut v = value(flags);
    v.elements = elements;
    v
}

fn array_buffer(bytes: &[u8]) -> LocalValueAny {
    let mut flags = TypeFlags::none();
    flags.is_array_buffer = true;
    flags.is_object = true;
    let mut v = value(flags);
    v.bytes = bytes.to_vec();
    v
}

fn object(properties: Vec<(&str, LocalValueAny)>) -> LocalValueAny {
    let mut flags = TypeFlags::none();
    flags.is_object = true;
    let mut v = value(flags);
    v.properties = properties.into_iter().map(|(k, p)| (k.to_string(), p)).collect();
    v
}

fn set() -> LocalValueAny {
    let mut flags = TypeFlags::none();
    flags.is_set = true;
    flags.is_object = true;
    value(flags)
}

fn param(label: &str, ty: ArgType, kind: ParamKind) -> Param {
    Param { type_label: label.to_string(), ty, kind }
}

/// Calls a native function with the given parameters on the given
/// arguments; the error is the message of the exception the call
/// raises.
fn define_function_and_call<F>(args: Vec<LocalValueAny>, params: Vec<Param>, body: F) -> Result<(), String>
where
    F: Fn(Vec<BoundArg>) -> Result<Option<LocalValueAny>, String>,
{
    let args = V8LocalNativeFunctionArgs::new(args);
    match call_native(&args, &params, body) {
        CallOutcome::Returned(_) => Ok(()),
        CallOutcome::Raised(m) => Err(m),
    }
}

fn long_of(b: &BoundArg) -> i64 {
    match b {
        BoundArg::One(ArgValue::Long(n)) => *n,
        _ => panic!("not a long argument"),
    }
}

#[test]
fn macro_i64() {
    define_function_and_call(
        vec![js_int(1), js_int(2)],
        vec![param("i64", ArgType::Long, ParamKind::Required), param("i64", ArgType::Long, ParamKind::Required)],
        |args| {
            assert_eq!(long_of(&args[0]), 1);
            assert_eq!(long_of(&args[1]), 2);
            Ok(None)
        },
    )
    .expect("Got error on function run");
}

#[test]
fn macro_v8_local_utf8() {
    define_function_and_call(
        vec![string("test")],
        vec![param("v8_utf8 :: V8LocalUtf8", ArgType::Utf8, ParamKind::Required)],
        |args| {
            match &args[0] {
                BoundArg::One(ArgValue::Utf8(u)) => assert_eq!(u.as_str(), "test"),
                _ => panic!("not a UTF-8 argument"),
            }
            Ok(None)
        },
    )
    .expect("Got error on function run");
}

#[test]
fn macro_v8_local_value() {
    define_function_and_call(
        vec![string("test")],
        vec![param("v8_value :: V8LocalValue", ArgType::Any, ParamKind::Required)],
        |args| {
            match &args[0] {
                BoundArg::One(ArgValue::Any(v)) => assert_eq!(v.to_utf8().unwrap().as_str(), "test"),
                _ => panic!("not a value argument"),
            }
            Ok(None)
        },
    )
    .expect("Got error on function run");
}

#[test]
fn macro_v8_local_set() {
    define_function_and_call(
        vec![set()],
        vec![param("v8_set :: V8LocalSet", ArgType::SetObject, ParamKind::Required)],
        |args| {
            assert!(matches!(&args[0], BoundArg::One(ArgValue::SetObject(_))));
            Ok(None)
        },
    )
    .expect("Got error on function run");
}

#[test]
fn macro_v8_local_array() {
    define_function_and_call(
        vec![array(vec![js_int(1), js_int(2)])],
        vec![param("v8_array :: V8LocalArray", ArgType::Array, ParamKind::Required)],
        |args| {
            match &args[0] {
                BoundArg::One(ArgValue::Array(a)) => assert_eq!(a.len(), 2),
                _ => panic!("not an array argument"),
            }
            Ok(None)
        },
    )
    .expect("Got error on function run");
}

#[test]
fn macro_v8_local_array_buffer() {
    define_function_and_call(
        vec![array_buffer(&[255, 255, 255, 255])],
        vec![param("v8_array_buffer :: V8LocalArrayBuffer", ArgType::ArrayBuffer, ParamKind::Required)],
        |args| {
            match &args[0] {
                BoundArg::One(ArgValue::ArrayBuffer(a)) => assert_eq!(a.data(), &[255, 255, 255, 255]),
                _ => panic!("not an array buffer argument"),
            }
            Ok(None)
        },
    )
    .expect("Got error on function run");
}

#[test]
fn macro_v8_local_object() {
    define_function_and_call(
        vec![object(vec![("foo", string("bar"))])],
        vec![param("v8_object :: V8LocalObject", ArgType::Object, ParamKind::Required)],
        |args| {
            match &args[0] {
                BoundArg::One(ArgValue::Object(o)) => {
                    assert_eq!(o.get_property("foo").to_utf8().unwrap().as_str(), "bar")
                }
                _ => panic!("not an object argument"),
            }
            Ok(None)
        },
    )
    .expect("Got error on function run");
}

#[test]
fn macro_wrong_args_count() {
    let err = define_function_and_call(
        vec![js_int(1)],
        vec![param("i64", ArgType::Long, ParamKind::Required), param("i64", ArgType::Long, ParamKind::Required)],
        |args| {
            assert_eq!(long_of(&args[0]), 1);
            assert_eq!(long_of(&args[1]), 2);
            Ok(None)
        },
    )
    .expect_err("Did not get error when suppose to.");
    assert_eq!(err, "Can not convert value at position 1 into i64. Wrong number of arguments given.");
}

#[test]
fn macro_wrong_arg_type() {
    let err = define_function_and_call(
        vec![js_int(1), string("foo")],
        vec![param("i64", ArgType::Long, ParamKind::Required), param("i64", ArgType::Long, ParamKind::Required)],
        |args| {
            assert_eq!(long_of(&args[0]), 1);
            assert_eq!(long_of(&args[1]), 2);
            Ok(None)
        },
    )
    .expect_err("Did not get error when suppose to.");
    assert_eq!(err, "Can not convert value at position 1 into i64. Value is not long.");
}

#[test]
fn macro_optional_arguments_object_not_exists() {
    let err = define_function_and_call(
        vec![js_int(1), string("foo"), array(vec![js_int(1), js_int(2)])],
        vec![
            param("i64", ArgType::Long, ParamKind::Required),
            param("i64", ArgType::Long, ParamKind::Required),
            param("Option < v8_array :: V8LocalArray >", ArgType::Array, ParamKind::Optional),
        ],
        |args| {
            assert_eq!(long_of(&args[0]), 1);
            assert_eq!(long_of(&args[1]), 2);
            assert!(matches!(&args[2], BoundArg::Maybe(None)));
            Ok(None)
        },
    )
    .expect_err("Did not get error when suppose to.");
    assert_eq!(err, "Can not convert value at position 1 into i64. Value is not long.");
}

#[test]
fn macro_optional_arguments_object() {
    let err = define_function_and_call(
        vec![js_int(1), string("foo"), array(vec![js_int(1), js_int(2)])],
        vec![
            param("i64", ArgType::Long, ParamKind::Required),
            param("i64", ArgType::Long, ParamKind::Required),
            param("Option < v8_array :: V8LocalArray >", ArgType::Array, ParamKind::Optional),
        ],
        |args| {
            assert_eq!(long_of(&args[0]), 1);
            assert_eq!(long_of(&args[1]), 2);
            match &args[2] {
                BoundArg::Maybe(Some(ArgValue::Array(a))) => assert_eq!(a.len(), 2),
                _ => panic!("not an array argument"),
            }
            Ok(None)
        },
    )
    .expect_err("Did not get error when suppose to.");
    assert_eq!(err, "Can not convert value at position 1 into i64. Value is not long.");
}

#[test]
fn macro_optional_arguments_value() {
    let err = define_function_and_call(
        vec![js_int(1), string("foo"), array(vec![js_int(1), js_int(2)])],
        vec![
            param("i64", ArgType::Long, ParamKind::Required),
            param("i64", ArgType::Long, ParamKind::Required),
            param("Option < v8_value :: V8LocalValue >", ArgType::Any, ParamKind::Optional),
        ],
        |args| {
            assert_eq!(long_of(&args[0]), 1);
            assert_eq!(long_of(&args[1]), 2);
            match &args[2] {
                BoundArg::Maybe(Some(ArgValue::Any(v))) => assert!(v.is_array()),
                _ => panic!("not a value argument"),
            }
            Ok(None)
        },
    )
    .expect_err("Did not get error when suppose to.");
    assert_eq!(err, "Can not convert value at position 1 into i64. Value is not long.");
}

#[test]
fn macro_consume_args() {
    define_function_and_call(
        vec![js_int(1), string("foo"), array(vec![js_int(1), js_int(2)])],
        vec![param("Vec < v8_value :: V8LocalValue >", ArgType::Any, ParamKind::Rest)],
        |args| {
            match &args[0] {
                BoundArg::Many(v) => assert_eq!(v.len(), 3),
                _ => panic!("not a vector argument"),
            }
            Ok(None)
        },
    )
    .expect("Got error on function run");
}

#[test]
fn macro_consume_args_2() {
    define_function_and_call(
        vec![js_int(1), string("foo"), array(vec![js_int(1), js_int(2)])],
        vec![
            param("i64", ArgType::Long, ParamKind::Required),
            param("Vec < v8_value :: V8LocalValue >", ArgType::Any, ParamKind::Rest),
        ],
        |args| {
            assert_eq!(long_of(&args[0]), 1);
            match &args[1] {
                BoundArg::Many(v) => assert_eq!(v.len(), 2),
                _ => panic!("not a vector argument"),
            }
            Ok(None)
        },
    )
    .expect("Got error on function run");
}

#[test]
fn macro_consume_args_error() {
    let err = define_function_and_call(
        vec![js_int(1), string("foo"), array(vec![js_int(1), js_int(2)])],
        vec![param("i64", ArgType::Long, ParamKind::Required), param("Vec < i64 >", ArgType::Long, ParamKind::Rest)],
        |args| {
            assert_eq!(long_of(&args[0]), 1);
            match &args[1] {
                BoundArg::Many(v) => assert_eq!(v.len(), 2),
                _ => panic!("not a vector argument"),
            }
            Ok(None)
        },
    )
    .expect_err("Did not get error when suppose to.");
    assert_eq!(err, "Failed consuming arguments. Value is not long.");
}

#[test]
fn body_error_is_raised() {
    let err = define_function_and_call(vec![js_int(7)], vec![param("i64", ArgType::Long, ParamKind::Required)], |_args| {
        Err("this is an error".to_string())
    })
    .expect_err("the body's error is raised");
    assert_eq!(err, "this is an error");
}

#[test]
fn body_does_not_run_when_binding_fails() {
    let err = define_function_and_call(vec![], vec![param("bool", ArgType::Boolean, ParamKind::Required)], |_args| {
        panic!("the body must not run")
    })
    .expect_err("binding fails");
    assert_eq!(err, "Can not convert value at position 0 into bool. Wrong number of arguments given.");
}

#[test]
fn optional_argument_left_out_is_none() {
    let args = V8LocalNativeFunctionArgs::new(vec![boolean(true)]);
    let params = vec![
        param("bool", ArgType::Boolean, ParamKind::Required),
        param("Option < String >", ArgType::Text, ParamKind::Optional),
    ];
    let bound = bind_arguments(&args, &params).ok().unwrap();
    assert_eq!(bound.len(), 2);
    assert!(matches!(&bound[0], BoundArg::One(ArgValue::Boolean(true))));
    assert!(matches!(&bound[1], BoundArg::Maybe(None)));
}

#[test]
fn extra_arguments_are_ignored() {
    let args = V8LocalNativeFunctionArgs::new(vec![js_int(1), js_int(2), js_int(3)]);
    let params = vec![param("i64", ArgType::Long, ParamKind::Required)];
    let bound = bind_arguments(&args, &params).ok().unwrap();
    assert_eq!(bound.len(), 1);
    assert_eq!(long_of(&bound[0]), 1);
}

#[test]
fn rest_after_missing_arguments_is_empty() {
    let args = V8LocalNativeFunctionArgs::new(vec![js_int(1)]);
    let params = vec![
        param("i64", ArgType::Long, ParamKind::Required),
        param("Option < i64 >", ArgType::Long, ParamKind::Optional),
        param("Vec < i64 >", ArgType::Long, ParamKind::Rest),
    ];
    let bound = bind_arguments(&args, &params).ok().unwrap();
    assert!(matches!(&bound[1], BoundArg::Maybe(None)));
    match &bound[2] {
        BoundArg::Many(v) => assert!(v.is_empty()),
        _ => panic!("not a vector argument"),
    }
}

#[test]
fn each_conversion_error_message() {
    let cases: Vec<(ArgType, LocalValueAny, &str)> = vec![
        (ArgType::Long, string("1"), "Value is not long"),
        (ArgType::Boolean, js_int(1), "Value is not a boolean"),
        (ArgType::Text, js_int(1), "Value is not string"),
        (ArgType::Utf8, boolean(true), "Value is not string"),
        (ArgType::Array, object(vec![]), "Value is not an array"),
        (ArgType::ArrayBuffer, array(vec![]), "Value is not an array buffer"),
        (ArgType::Object, js_int(1), "Value is not an object"),
        (ArgType::SetObject, object(vec![]), "Value is not a set"),
    ];
    for (ty, v, message) in cases {
        match convert_argument(ty, v) {
            Err(e) => assert_eq!(e, message),
            Ok(_) => panic!("conversion must fail"),
        }
    }
    let mut no_text = string("x");
    no_text.utf8 = None;
    match convert_argument(ArgType::Text, no_text) {
        Err(e) => assert_eq!(e, "Failed converting to utf8"),
        Ok(_) => panic!("conversion must fail"),
    }
    assert!(convert_argument(ArgType::Any, js_int(5)).is_ok());
}

#[test]
fn signature_order_is_checked() {
    let ok = vec![
        param("i64", ArgType::Long, ParamKind::Required),
        param("Option < i64 >", ArgType::Long, ParamKind::Optional),
        param("Vec < i64 >", ArgType::Long, ParamKind::Rest),
    ];
    assert!(check_signature(&ok).is_ok());
    let required_after_optional = vec![
        param("Option < i64 >", ArgType::Long, ParamKind::Optional),
        param("i64", ArgType::Long, ParamKind::Required),
    ];
    assert_eq!(check_signature(&required_after_optional), Err("All optional arguments must appear at the end."));
    let after_rest = vec![
        param("Vec < i64 >", ArgType::Long, ParamKind::Rest),
        param("Option < i64 >", ArgType::Long, ParamKind::Optional),
    ];
    assert_eq!(
        check_signature(&after_rest),
        Err("Can not add more arguments after consuming all arguments with a vector")
    );
}

#[test]
fn decimal_positions() {
    assert_eq!(decimal_string(0), "0");
    assert_eq!(decimal_string(7), "7");
    assert_eq!(decimal_string(10), "10");
    assert_eq!(decimal_string(1234567890), "1234567890");
    assert_eq!(decimal_string(u64::MAX), "18446744073709551615");
}

#[test]
fn arguments_taken_one_by_one() {
    let isolate = v8_rs::v8::isolate::V8Isolate::new();
    let i_scope = isolate.enter();
    let ctx = i_scope.new_context::<()>(None);
    let ctx_scope = ctx.enter(&i_scope);
    let args = V8LocalNativeFunctionArgs::new(vec![js_int(4), string("s")]);
    let mut it = args.iter(&ctx_scope);
    assert!(matches!(it.required_argument(ArgType::Long), Ok(ArgValue::Long(4))));
    assert_eq!(it.optional_argument(ArgType::Long).err(), Some("Value is not long"));
    assert!(matches!(it.optional_argument(ArgType::Long), Ok(None)));
    assert_eq!(it.required_argument(ArgType::Text).err(), Some("Wrong number of arguments given"));
}

#[test]
fn arguments_iteration_matches_get() {
    let isolate = v8_rs::v8::isolate::V8Isolate::new();
    let i_scope = isolate.enter();
    let ctx = i_scope.new_context::<()>(None);
    let ctx_scope = ctx.enter(&i_scope);
    let args = V8LocalNativeFunctionArgs::new(vec![js_int(1), string("foo"), array(vec![js_int(1), js_int(2)])]);
    let mut it = args.iter(&ctx_scope);
    let mut n = 0;
    while let Some(v) = it.next() {
        assert_eq!(v.get_type(), args.get(n).get_type());
        assert!(std::ptr::eq(it.get_ctx_scope(), &ctx_scope));
        n += 1;
    }
    assert_eq!(n, 3);
    assert!(it.next().is_none());
    assert!(std::ptr::eq(it.get_ctx_scope(), &ctx_scope));
}
