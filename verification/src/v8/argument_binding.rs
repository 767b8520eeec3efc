//! Binding the arguments of a JavaScript call to the typed parameters
//! of a native function: what a native function declared with typed
//! parameters does with the values it is called with before its body
//! runs, and the rules its parameter list must follow.
use vstd::prelude::*;

use crate::v8::types::any::{LocalValueAny, ValueView};
use crate::v8::types::array::LocalArray;
use crate::v8::types::array_buffer::LocalArrayBuffer;
use crate::v8::types::object::LocalObject;
use crate::v8::types::set::LocalSet;
use crate::v8::types::utf8::{utf8_conversion, LocalUtf8};
use crate::v8::v8_native_function_template::V8LocalNativeFunctionArgs;

verus! {

/// The Rust type a parameter asks for.
#[derive(Debug, Copy, Clone, PartialEq, Eq, Structural)]
pub enum ArgType {
    /// `i64`: a `BigInt`.
    Long,
    /// `bool`.
    Boolean,
    /// `String`: a string or string object, as UTF-8.
    Text,
    /// A UTF-8 string handle.
    Utf8,
    /// An array.
    Array,
    /// An array buffer.
    ArrayBuffer,
    /// An object.
    Object,
    /// A `Set` object.
    SetObject,
    /// Any value, as it is.
    Any,
}

/// A converted argument.
pub enum ArgValue {
    Long(i64),
    Boolean(bool),
    Text(String),
    Utf8(LocalUtf8),
    Array(LocalArray),
    ArrayBuffer(LocalArrayBuffer),
    Object(LocalObject),
    SetObject(LocalSet),
    Any(LocalValueAny),
}

/// The abstract content of a converted argument.
pub enum ArgView {
    Long(i64),
    Boolean(bool),
    Text(Seq<char>),
    Utf8(Seq<char>),
    Array(ValueView),
    ArrayBuffer(ValueView),
    Object(ValueView),
    SetObject(ValueView),
    Any(ValueView),
}

impl View for ArgValue {
    type V = ArgView;

    open spec fn view(&self) -> ArgView {
        match self {
            ArgValue::Long(x) => ArgView::Long(*x),
            ArgValue::Boolean(x) => ArgView::Boolean(*x),
            ArgValue::Text(s) => ArgView::Text(s@),
            ArgValue::Utf8(u) => ArgView::Utf8(u.text@),
            ArgValue::Array(a) => ArgView::Array(a.0@),
            ArgValue::ArrayBuffer(a) => ArgView::ArrayBuffer(a.0@),
            ArgValue::Object(o) => ArgView::Object(o.0@),
            ArgValue::SetObject(o) => ArgView::SetObject(o.0@),
            ArgValue::Any(v) => ArgView::Any(v@),
        }
    }
}

/// What converting a value to the type `ty` gives.
pub open spec fn conversion(ty: ArgType, v: ValueView) -> Result<ArgView, &'static str> {
    match ty {
        ArgType::Long => if v.flags.is_long {
            Ok(ArgView::Long(v.long_value))
        } else {
            Err("Value is not long")
        },
        ArgType::Boolean => if v.flags.is_boolean {
            Ok(ArgView::Boolean(v.bool_value))
        } else {
            Err("Value is not a boolean")
        },
        ArgType::Text => match utf8_conversion(v) {
            Ok(s) => Ok(ArgView::Text(s)),
            Err(e) => Err(e),
        },
        ArgType::Utf8 => match utf8_conversion(v) {
            Ok(s) => Ok(ArgView::Utf8(s)),
            Err(e) => Err(e),
        },
        ArgType::Array => if v.flags.is_array {
            Ok(ArgView::Array(v))
        } else {
            Err("Value is not an array")
        },
        ArgType::ArrayBuffer => if v.flags.is_array_buffer {
            Ok(ArgView::ArrayBuffer(v))
        } else {
            Err("Value is not an array buffer")
        },
        ArgType::Object => if v.flags.is_object {
            Ok(ArgView::Object(v))
        } else {
            Err("Value is not an object")
        },
        ArgType::SetObject => if v.flags.is_set {
            Ok(ArgView::SetObject(v))
        } else {
            Err("Value is not a set")
        },
        ArgType::Any => Ok(ArgView::Any(v)),
    }
}

/// Converts an argument to the type `ty`.
pub fn convert_argument(ty: ArgType, v: LocalValueAny) -> (r: Result<ArgValue, &'static str>)
    ensures
        match conversion(ty, v@) {
            Ok(a) => r matches Ok(x) && x@ == a,
            Err(e) => r == Err::<ArgValue, &'static str>(e),
        },
{
    match ty {
        ArgType::Long => {
            if !v.is_long() {
                return Err("Value is not long");
            }
            Ok(ArgValue::Long(v.get_long()))
        },
        ArgType::Boolean => {
            if !v.is_boolean() {
                return Err("Value is not a boolean");
            }
            Ok(ArgValue::Boolean(v.get_boolean()))
        },
        ArgType::Text => match v.try_into_string() {
            Ok(s) => Ok(ArgValue::Text(s)),
            Err(e) => Err(e),
        },
        ArgType::Utf8 => match LocalUtf8::try_from_any(v) {
            Ok(u) => Ok(ArgValue::Utf8(u)),
            Err(e) => Err(e),
        },
        ArgType::Array => match LocalArray::try_from_any(v) {
            Ok(a) => Ok(ArgValue::Array(a)),
            Err(e) => Err(e),
        },
        ArgType::ArrayBuffer => match LocalArrayBuffer::try_from_any(v) {
            Ok(a) => Ok(ArgValue::ArrayBuffer(a)),
            Err(e) => Err(e),
        },
        ArgType::Object => {
            if !v.is_object() {
                return Err("Value is not an object");
            }
            Ok(ArgValue::Object(LocalObject(v)))
        },
        ArgType::SetObject => match LocalSet::try_from_any(v) {
            Ok(a) => Ok(ArgValue::SetObject(a)),
            Err(e) => Err(e),
        },
        ArgType::Any => Ok(ArgValue::Any(v)),
    }
}

/// The decimal digit `d` (below ten).
pub open spec fn digit(d: nat) -> Seq<char> {
    if d == 0 {
        "0"@
    } else if d == 1 {
        "1"@
    } else if d == 2 {
        "2"@
    } else if d == 3 {
        "3"@
    } else if d == 4 {
        "4"@
    } else if d == 5 {
        "5"@
    } else if d == 6 {
        "6"@
    } else if d == 7 {
        "7"@
    } else if d == 8 {
        "8"@
    } else {
        "9"@
    }
}

/// The decimal representation of `n`.
pub open spec fn decimal(n: nat) -> Seq<char>
    decreases n,
{
    if n < 10 {
        digit(n)
    } else {
        decimal(n / 10) + digit(n % 10)
    }
}

fn digit_str(d: u64) -> (r: &'static str)
    requires
        d < 10,
    ensures
        r@ == digit(d as nat),
{
    if d == 0 {
        "0"
    } else if d == 1 {
        "1"
    } else if d == 2 {
        "2"
    } else if d == 3 {
        "3"
    } else if d == 4 {
        "4"
    } else if d == 5 {
        "5"
    } else if d == 6 {
        "6"
    } else if d == 7 {
        "7"
    } else if d == 8 {
        "8"
    } else {
        "9"
    }
}

/// The decimal representation of `n`.
pub fn decimal_string(n: u64) -> (r: String)
    ensures
        r@ == decimal(n as nat),
    decreases n,
{
    if n < 10 {
        String::from_str(digit_str(n))
    } else {
        let mut s = decimal_string(n / 10);
        s.append(digit_str(n % 10));
        s
    }
}

/// The message raised when the argument at `position` cannot be
/// converted into the parameter's type, named `type_label`.
pub open spec fn conversion_error_message(position: nat, type_label: Seq<char>, error: Seq<char>) -> Seq<char> {
    "Can not convert value at position "@ + decimal(position) + " into "@ + type_label + ". "@ + error + "."@
}

/// The message raised when one of the arguments a vector parameter
/// consumes cannot be converted.
pub open spec fn consume_error_message(error: Seq<char>) -> Seq<char> {
    "Failed consuming arguments. "@ + error + "."@
}

/// The message raised when the argument at `position` cannot be
/// converted.
pub fn conversion_error(position: usize, type_label: &str, error: &str) -> (r: String)
    ensures
        r@ == conversion_error_message(position as nat, type_label@, error@),
{
    let mut s = String::from_str("Can not convert value at position ");
    let digits = decimal_string(position as u64);
    s.append(digits.as_str());
    s.append(" into ");
    s.append(type_label);
    s.append(". ");
    s.append(error);
    s.append(".");
    s
}

/// The message raised when one of the arguments a vector parameter
/// consumes cannot be converted.
pub fn consume_error(error: &str) -> (r: String)
    ensures
        r@ == consume_error_message(error@),
{
    let mut s = String::from_str("Failed consuming arguments. ");
    s.append(error);
    s.append(".");
    s
}

/// How a parameter takes its argument.
#[derive(Debug, Copy, Clone, PartialEq, Eq, Structural)]
pub enum ParamKind {
    /// The argument must be given (a plain type).
    Required,
    /// The argument may be left out (an `Option`).
    Optional,
    /// All the remaining arguments (a `Vec`).
    Rest,
}

/// A parameter of a native function: the name of its type as written,
/// the type it converts its argument to, and how it takes it.
pub struct Param {
    pub type_label: String,
    pub ty: ArgType,
    pub kind: ParamKind,
}

/// The message for a parameter that follows a vector parameter.
pub open spec fn after_rest_message() -> &'static str {
    "Can not add more arguments after consuming all arguments with a vector"
}

/// The message for a required parameter that follows an optional one.
pub open spec fn optional_last_message() -> &'static str {
    "All optional arguments must appear at the end."
}

/// Whether a parameter of kind `k` comes before position `i`.
pub open spec fn kind_before(kinds: Seq<ParamKind>, i: int, k: ParamKind) -> bool {
    exists|j: int| 0 <= j < i && #[trigger] kinds[j] == k
}

/// What is wrong with the parameter at position `i`, if anything.
pub open spec fn violation_at(kinds: Seq<ParamKind>, i: int) -> Option<&'static str> {
    if kind_before(kinds, i, ParamKind::Rest) {
        Some(after_rest_message())
    } else if kinds[i] == ParamKind::Required && kind_before(kinds, i, ParamKind::Optional) {
        Some(optional_last_message())
    } else {
        None
    }
}

/// A parameter list is well ordered: required parameters first, then
/// optional ones, then at most one vector parameter, last.
pub open spec fn well_ordered(kinds: Seq<ParamKind>) -> bool {
    forall|i: int| 0 <= i < kinds.len() ==> (#[trigger] violation_at(kinds, i)) is None
}

/// The kinds of the parameters.
pub open spec fn kinds_of(params: Seq<Param>) -> Seq<ParamKind> {
    Seq::new(params.len(), |i: int| params[i].kind)
}

/// A parameter list is well ordered exactly when no parameter follows a
/// vector parameter and no required parameter follows an optional one:
/// required parameters first, then optional ones, then at most one
/// vector parameter, last.
pub proof fn law_well_ordered_lists(kinds: Seq<ParamKind>)
    ensures
        well_ordered(kinds) <==> {
            &&& forall|j: int| 0 <= j < kinds.len() - 1 ==> #[trigger] kinds[j] != ParamKind::Rest
            &&& forall|j: int, i: int|
                #![trigger kinds[j], kinds[i]]
                0 <= j < i < kinds.len() && kinds[j] == ParamKind::Optional ==> kinds[i]
                    != ParamKind::Required
        },
        forall|j: int, i: int|
            0 <= j < i < kinds.len() && #[trigger] kinds[j] == ParamKind::Rest ==> #[trigger] violation_at(
                kinds,
                i,
            ) == Some(after_rest_message()),
{
    let no_rest_early = forall|j: int| 0 <= j < kinds.len() - 1 ==> #[trigger] kinds[j] != ParamKind::Rest;
    let no_required_late = forall|j: int, i: int|
        #![trigger kinds[j], kinds[i]]
        0 <= j < i < kinds.len() && kinds[j] == ParamKind::Optional ==> kinds[i] != ParamKind::Required;
    if well_ordered(kinds) {
        assert forall|j: int| 0 <= j < kinds.len() - 1 implies #[trigger] kinds[j] != ParamKind::Rest by {
            if kinds[j] == ParamKind::Rest {
                assert(kind_before(kinds, j + 1, ParamKind::Rest));
                assert(violation_at(kinds, j + 1) is None);
            }
        }
        assert forall|j: int, i: int|
            #![trigger kinds[j], kinds[i]]
            0 <= j < i < kinds.len() && kinds[j] == ParamKind::Optional implies kinds[i]
                != ParamKind::Required by {
            assert(kind_before(kinds, i, ParamKind::Optional));
            assert(violation_at(kinds, i) is None);
        }
    }
    if no_rest_early && no_required_late {
        assert forall|i: int| 0 <= i < kinds.len() implies (#[trigger] violation_at(kinds, i)) is None by {
            if kind_before(kinds, i, ParamKind::Rest) {
                let j = choose|j: int| 0 <= j < i && #[trigger] kinds[j] == ParamKind::Rest;
                assert(kinds[j] != ParamKind::Rest);
            }
            if kinds[i] == ParamKind::Required && kind_before(kinds, i, ParamKind::Optional) {
                let j = choose|j: int| 0 <= j < i && #[trigger] kinds[j] == ParamKind::Optional;
                assert(kinds[i] != ParamKind::Required);
            }
        }
    }
    assert forall|j: int, i: int|
        0 <= j < i < kinds.len() && #[trigger] kinds[j] == ParamKind::Rest implies #[trigger] violation_at(
            kinds,
            i,
        ) == Some(after_rest_message()) by {
        assert(kind_before(kinds, i, ParamKind::Rest));
    }
}

/// Checks the order of the parameters of a native function: the error
/// is that of the first parameter out of place.
pub fn check_signature(params: &Vec<Param>) -> (r: Result<(), &'static str>)
    ensures
        r is Ok <==> well_ordered(kinds_of(params@)),
        r matches Err(e) ==> exists|i: int|
            0 <= i < params@.len() && violation_at(kinds_of(params@), i) == Some(e) && forall|k: int|
                0 <= k < i ==> (#[trigger] violation_at(kinds_of(params@), k)) is None,
{
    let ghost kinds = kinds_of(params@);
    let mut seen_rest = false;
    let mut seen_optional = false;
    let mut i: usize = 0;
    while i < params.len()
        invariant
            kinds == kinds_of(params@),
            i <= params@.len(),
            seen_rest == kind_before(kinds, i as int, ParamKind::Rest),
            seen_optional == kind_before(kinds, i as int, ParamKind::Optional),
            forall|k: int| 0 <= k < i ==> (#[trigger] violation_at(kinds, k)) is None,
        decreases params@.len() - i,
    {
        assert(kinds[i as int] == params@[i as int].kind);
        if seen_rest {
            return Err("Can not add more arguments after consuming all arguments with a vector");
        }
        match params[i].kind {
            ParamKind::Rest => {
                seen_rest = true;
            },
            ParamKind::Optional => {
                seen_optional = true;
            },
            ParamKind::Required => {
                if seen_optional {
                    return Err("All optional arguments must appear at the end.");
                }
            },
        }
        assert(violation_at(kinds, i as int) is None);
        i = i + 1;
        assert(seen_rest == kind_before(kinds, i as int, ParamKind::Rest)) by {
            if seen_rest && !kind_before(kinds, i - 1, ParamKind::Rest) {
                assert(kinds[i - 1] == ParamKind::Rest);
            }
        }
        assert(seen_optional == kind_before(kinds, i as int, ParamKind::Optional)) by {
            if seen_optional && !kind_before(kinds, i - 1, ParamKind::Optional) {
                assert(kinds[i - 1] == ParamKind::Optional);
            }
        }
    }
    Ok(())
}

/// An argument bound to a parameter.
pub enum BoundArg {
    /// The converted argument of a required parameter.
    One(ArgValue),
    /// The converted argument of an optional parameter, if given.
    Maybe(Option<ArgValue>),
    /// The converted remaining arguments, for a vector parameter.
    Many(Vec<ArgValue>),
}

/// The abstract content of a bound argument.
pub enum BoundView {
    One(ArgView),
    Maybe(Option<ArgView>),
    Many(Seq<ArgView>),
}

impl View for BoundArg {
    type V = BoundView;

    open spec fn view(&self) -> BoundView {
        match self {
            BoundArg::One(a) => BoundView::One(a@),
            BoundArg::Maybe(Some(a)) => BoundView::Maybe(Some(a@)),
            BoundArg::Maybe(None) => BoundView::Maybe(None),
            BoundArg::Many(v) => BoundView::Many(Seq::new(v@.len(), |i: int| v@[i]@)),
        }
    }
}

/// Puts converted arguments in front of what the rest gives.
pub open spec fn prepend_many(front: Seq<ArgView>, rest: Result<BoundView, Seq<char>>) -> Result<BoundView, Seq<char>> {
    match rest {
        Ok(BoundView::Many(s)) => Ok(BoundView::Many(front + s)),
        other => other,
    }
}

/// What a vector parameter of type `ty` gives for the remaining
/// arguments: all of them converted, or the error of the first one
/// that does not convert.
pub open spec fn rest_outcome(ty: ArgType, rest: Seq<ValueView>) -> Result<BoundView, Seq<char>>
    decreases rest.len(),
{
    if rest.len() == 0 {
        Ok(BoundView::Many(Seq::empty()))
    } else {
        match conversion(ty, rest[0]) {
            Err(e) => Err(consume_error_message(e@)),
            Ok(a) => prepend_many(seq![a], rest_outcome(ty, rest.drop_first())),
        }
    }
}

/// What the parameter `p`, at position `i`, gives for the arguments
/// `args`. Parameters before a vector parameter take one argument each,
/// in order.
pub open spec fn param_outcome(p: Param, i: int, args: Seq<ValueView>) -> Result<BoundView, Seq<char>> {
    match p.kind {
        ParamKind::Required => if i < args.len() {
            match conversion(p.ty, args[i]) {
                Ok(a) => Ok(BoundView::One(a)),
                Err(e) => Err(conversion_error_message(i as nat, p.type_label@, e@)),
            }
        } else {
            Err(conversion_error_message(i as nat, p.type_label@, "Wrong number of arguments given"@))
        },
        ParamKind::Optional => if i < args.len() {
            match conversion(p.ty, args[i]) {
                Ok(a) => Ok(BoundView::Maybe(Some(a))),
                Err(e) => Err(conversion_error_message(i as nat, p.type_label@, e@)),
            }
        } else {
            Ok(BoundView::Maybe(None))
        },
        ParamKind::Rest => rest_outcome(p.ty, args.subrange(if i < args.len() { i } else { args.len() as int }, args.len() as int)),
    }
}

/// Puts a bound argument in front of what the following parameters
/// give.
pub open spec fn prepend_bound(front: BoundView, rest: Result<Seq<BoundView>, Seq<char>>) -> Result<Seq<BoundView>, Seq<char>> {
    match rest {
        Ok(s) => Ok(seq![front] + s),
        Err(e) => Err(e),
    }
}

/// What the parameters from position `i` on give for the arguments:
/// every parameter bound, or the error of the first one that fails.
pub open spec fn bind_from(params: Seq<Param>, i: int, args: Seq<ValueView>) -> Result<Seq<BoundView>, Seq<char>>
    decreases params.len() - i,
{
    if i >= params.len() || i < 0 {
        Ok(Seq::empty())
    } else {
        match param_outcome(params[i], i, args) {
            Err(e) => Err(e),
            Ok(b) => prepend_bound(b, bind_from(params, i + 1, args)),
        }
    }
}

/// Puts bound arguments in front of what the following parameters
/// give.
pub open spec fn prepend_all(front: Seq<BoundView>, rest: Result<Seq<BoundView>, Seq<char>>) -> Result<Seq<BoundView>, Seq<char>> {
    match rest {
        Ok(s) => Ok(front + s),
        Err(e) => Err(e),
    }
}

/// What binding from position `i` on gives, parameter by parameter:
/// when it succeeds, one bound argument per parameter, each what its
/// parameter gives; a parameter that fails makes the binding fail, with
/// the error of the first one that fails.
proof fn lemma_bind_from_parts(params: Seq<Param>, i: int, args: Seq<ValueView>)
    requires
        0 <= i <= params.len(),
    ensures
        bind_from(params, i, args) matches Ok(s) ==> {
            &&& s.len() == params.len() - i
            &&& forall|k: int| 0 <= k < s.len() ==> param_outcome(params[i + k], i + k, args) == Ok::<BoundView, Seq<char>>(#[trigger] s[k])
        },
        forall|k: int|
            i <= k < params.len() && (#[trigger] param_outcome(params[k], k, args)) is Err ==> bind_from(params, i, args) is Err,
        forall|k: int|
            i <= k < params.len() && (forall|m: int| i <= m < k ==> (#[trigger] param_outcome(params[m], m, args)) is Ok)
                ==> match #[trigger] param_outcome(params[k], k, args) {
                Err(e) => bind_from(params, i, args) == Err::<Seq<BoundView>, Seq<char>>(e),
                Ok(_) => true,
            },
    decreases params.len() - i,
{
    if i < params.len() {
        lemma_bind_from_parts(params, i + 1, args);
        match param_outcome(params[i], i, args) {
            Err(e) => {},
            Ok(b) => {
                match bind_from(params, i + 1, args) {
                    Ok(t) => {
                        let s = seq![b] + t;
                        assert forall|k: int| 0 <= k < s.len() implies param_outcome(params[i + k], i + k, args)
                            == Ok::<BoundView, Seq<char>>(#[trigger] s[k]) by {
                            if k > 0 {
                                assert(s[k] == t[k - 1]);
                                assert(param_outcome(params[(i + 1) + (k - 1)], (i + 1) + (k - 1), args)
                                    == Ok::<BoundView, Seq<char>>(t[k - 1]));
                            }
                        }
                    },
                    Err(_) => {},
                }
                assert forall|k: int|
                    i <= k < params.len() && (#[trigger] param_outcome(params[k], k, args)) is Err implies bind_from(
                    params,
                    i,
                    args,
                ) is Err by {
                    if k > i {
                        assert(bind_from(params, i + 1, args) is Err);
                    }
                }
                assert forall|k: int|
                    i <= k < params.len() && (forall|m: int| i <= m < k ==> (#[trigger] param_outcome(params[m], m, args)) is Ok)
                    implies match #[trigger] param_outcome(params[k], k, args) {
                    Err(e) => bind_from(params, i, args) == Err::<Seq<BoundView>, Seq<char>>(e),
                    Ok(_) => true,
                } by {
                    if k > i {
                        assert forall|m: int| i + 1 <= m < k implies (#[trigger] param_outcome(params[m], m, args)) is Ok by {
                        }
                    }
                }
            },
        }
    }
}

/// An argument given for an optional parameter is converted or the call
/// fails: the parameter is bound to nothing only when its argument is
/// left out (the call has fewer arguments); a given argument that does
/// not convert to the parameter's type makes the binding fail, with the
/// conversion message for that position when no earlier parameter
/// fails. A required parameter likewise fails on an argument that does
/// not convert, and on a missing one.
pub proof fn law_given_arguments_are_converted(params: Seq<Param>, args: Seq<ValueView>, i: int)
    requires
        0 <= i < params.len(),
        params[i].kind != ParamKind::Rest,
    ensures
        params[i].kind == ParamKind::Optional ==> (bind_from(params, 0, args) matches Ok(s) ==> (s[i]
            == BoundView::Maybe(None) <==> i >= args.len())),
        bind_from(params, 0, args) matches Ok(s) ==> (i < args.len() ==> (conversion(params[i].ty, args[i]) matches Ok(
            a,
        ) && (s[i] == BoundView::Maybe(Some(a)) || s[i] == BoundView::One(a)))),
        params[i].kind == ParamKind::Required && i >= args.len() ==> bind_from(params, 0, args) is Err,
        i < args.len() && conversion(params[i].ty, args[i]) is Err ==> bind_from(params, 0, args) is Err,
        i < args.len() && (forall|k: int| 0 <= k < i ==> (#[trigger] param_outcome(params[k], k, args)) is Ok) ==> match conversion(
            params[i].ty,
            args[i],
        ) {
            Err(e) => bind_from(params, 0, args) == Err::<Seq<BoundView>, Seq<char>>(
                conversion_error_message(i as nat, params[i].type_label@, e@),
            ),
            Ok(_) => true,
        },
{
    lemma_bind_from_parts(params, 0, args);
    match bind_from(params, 0, args) {
        Ok(s) => {
            assert(param_outcome(params[0 + i], 0 + i, args) == Ok::<BoundView, Seq<char>>(s[i]));
        },
        Err(_) => {},
    }
    if i < args.len() && (forall|k: int| 0 <= k < i ==> (#[trigger] param_outcome(params[k], k, args)) is Ok) {
        assert(forall|m: int| 0 <= m < i ==> (#[trigger] param_outcome(params[m], m, args)) is Ok);
    }
}

/// Binds the remaining arguments, from position `start`, to a vector
/// parameter of type `ty`.
fn bind_rest(ty: ArgType, args: &V8LocalNativeFunctionArgs, start: usize) -> (r: Result<Vec<ArgValue>, String>)
    requires
        start <= args.args().len(),
    ensures
        match rest_outcome(ty, args.args().subrange(start as int, args.args().len() as int)) {
            Ok(BoundView::Many(s)) => r matches Ok(v) && v@.len() == s.len() && forall|k: int| 0 <= k < s.len() ==> (#[trigger] v@[k])@ == s[k],
            Ok(_) => false,
            Err(e) => r matches Err(m) && m@ == e,
        },
{
    let n = args.len();
    let ghost rest = args.args().subrange(start as int, n as int);
    let mut collected: Vec<ArgValue> = Vec::new();
    let mut j: usize = start;
    proof {
        lemma_rest_outcome_many(ty, rest);
        assert(rest.skip(0) =~= rest);
    }
    while j < n
        invariant
            n == args.args().len(),
            start <= j <= n,
            rest == args.args().subrange(start as int, n as int),
            collected@.len() == j - start,
            rest_outcome(ty, rest) == prepend_many(
                Seq::new(collected@.len(), |k: int| collected@[k]@),
                rest_outcome(ty, rest.skip(j - start)),
            ),
            rest_outcome(ty, rest) matches Ok(b) ==> b is Many,
        decreases n - j,
    {
        let v = args.get(j);
        let ghost tail = rest.skip(j - start);
        assert(tail[0] == args.args()[j as int]);
        let ghost before = Seq::new(collected@.len(), |k: int| collected@[k]@);
        match convert_argument(ty, v) {
            Ok(a) => {
                proof {
                    assert(tail.drop_first() =~= rest.skip(j + 1 - start));
                    lemma_rest_outcome_many(ty, tail.drop_first());
                }
                collected.push(a);
                j = j + 1;
                proof {
                    let after = Seq::new(collected@.len(), |k: int| collected@[k]@);
                    assert(after =~= before + seq![a@]);
                    match rest_outcome(ty, rest.skip(j - start)) {
                        Ok(BoundView::Many(s)) => {
                            assert(before + (seq![a@] + s) =~= after + s);
                        },
                        _ => {},
                    }
                }
            },
            Err(e) => {
                let m = consume_error(e);
                return Err(m);
            },
        }
    }
    proof {
        assert(rest.skip(n - start).len() == 0);
        let fin = Seq::new(collected@.len(), |k: int| collected@[k]@);
        assert(fin + Seq::<ArgView>::empty() =~= fin);
    }
    Ok(collected)
}

/// A vector parameter gives a list of converted arguments when it
/// gives anything.
proof fn lemma_rest_outcome_many(ty: ArgType, rest: Seq<ValueView>)
    ensures
        rest_outcome(ty, rest) matches Ok(b) ==> b is Many,
    decreases rest.len(),
{
    if rest.len() > 0 {
        lemma_rest_outcome_many(ty, rest.drop_first());
    }
}

/// Binds the arguments of a call to the parameters of a native
/// function, in order: each parameter before a vector parameter takes
/// the next argument, converted to its type; a missing or unconvertible
/// argument of a required parameter, or an unconvertible argument of an
/// optional one, stops the binding with the message the call raises; a
/// vector parameter takes all the remaining arguments. Arguments left
/// over are ignored.
pub fn bind_arguments(args: &V8LocalNativeFunctionArgs, params: &Vec<Param>) -> (r: Result<Vec<BoundArg>, String>)
    ensures
        match bind_from(params@, 0, args.args()) {
            Ok(s) => r matches Ok(v) && v@.len() == s.len() && forall|k: int| 0 <= k < s.len() ==> (#[trigger] v@[k])@ == s[k],
            Err(e) => r matches Err(m) && m@ == e,
        },
{
    let n = args.len();
    let mut bound: Vec<BoundArg> = Vec::new();
    let mut i: usize = 0;
    while i < params.len()
        invariant
            n == args.args().len(),
            i <= params@.len(),
            bound@.len() == i,
            bind_from(params@, 0, args.args()) == prepend_all(
                Seq::new(bound@.len(), |k: int| bound@[k]@),
                bind_from(params@, i as int, args.args()),
            ),
        decreases params@.len() - i,
    {
        let ghost before = Seq::new(bound@.len(), |k: int| bound@[k]@);
        let p = &params[i];
        let b: BoundArg = match p.kind {
            ParamKind::Required => {
                if i < n {
                    match convert_argument(p.ty, args.get(i)) {
                        Ok(a) => BoundArg::One(a),
                        Err(e) => {
                            return Err(conversion_error(i, p.type_label.as_str(), e));
                        },
                    }
                } else {
                    return Err(conversion_error(i, p.type_label.as_str(), "Wrong number of arguments given"));
                }
            },
            ParamKind::Optional => {
                if i < n {
                    match convert_argument(p.ty, args.get(i)) {
                        Ok(a) => BoundArg::Maybe(Some(a)),
                        Err(e) => {
                            return Err(conversion_error(i, p.type_label.as_str(), e));
                        },
                    }
                } else {
                    BoundArg::Maybe(None)
                }
            },
            ParamKind::Rest => {
                let start = if i < n { i } else { n };
                match bind_rest(p.ty, args, start) {
                    Ok(v) => {
                        let b = BoundArg::Many(v);
                        proof {
                            lemma_rest_outcome_many(p.ty, args.args().subrange(start as int, n as int));
                        }
                        b
                    },
                    Err(m) => {
                        return Err(m);
                    },
                }
            },
        };
        assert(param_outcome(params@[i as int], i as int, args.args()) == Ok::<BoundView, Seq<char>>(b@)) by {
            if let BoundArg::Many(v) = b {
                match param_outcome(params@[i as int], i as int, args.args()) {
                    Ok(BoundView::Many(s)) => {
                        assert(s =~= Seq::new(v@.len(), |k: int| v@[k]@));
                    },
                    _ => {},
                }
            }
        }
        bound.push(b);
        i = i + 1;
        proof {
            let after = Seq::new(bound@.len(), |k: int| bound@[k]@);
            assert(after =~= before + seq![b@]);
            match bind_from(params@, i as int, args.args()) {
                Ok(s) => {
                    assert(before + (seq![b@] + s) =~= after + s);
                },
                Err(_) => {},
            }
        }
    }
    proof {
        let fin = Seq::new(bound@.len(), |k: int| bound@[k]@);
        assert(fin + Seq::<BoundView>::empty() =~= fin);
    }
    Ok(bound)
}

/// What a call of a native function ends with.
pub enum CallOutcome {
    /// The function returned (possibly no value).
    Returned(Option<LocalValueAny>),
    /// The function raised an exception with this message.
    Raised(String),
}

/// Calls a native function declared with typed parameters: the
/// arguments are bound to the parameters (see [`bind_arguments`]); when
/// that fails, the call raises the binding's message and the body does
/// not run. Otherwise the body runs on the bound arguments, and an
/// error it returns is raised.
pub fn call_native<F>(args: &V8LocalNativeFunctionArgs, params: &Vec<Param>, body: F) -> (r: CallOutcome)
    where
        F: Fn(Vec<BoundArg>) -> Result<Option<LocalValueAny>, String>,
    requires
        forall|b: Vec<BoundArg>| body.requires((b,)),
    ensures
        match bind_from(params@, 0, args.args()) {
            Err(e) => r matches CallOutcome::Raised(m) && m@ == e,
            Ok(s) => exists|b: Vec<BoundArg>, out: Result<Option<LocalValueAny>, String>|
                #![trigger body.ensures((b,), out)]
                {
                    &&& b@.len() == s.len()
                    &&& forall|k: int| 0 <= k < s.len() ==> (#[trigger] b@[k])@ == s[k]
                    &&& body.ensures((b,), out)
                    &&& match out {
                        Ok(v) => r == CallOutcome::Returned(v),
                        Err(e) => r == CallOutcome::Raised(e),
                    }
                },
        },
{
    match bind_arguments(args, params) {
        Err(m) => CallOutcome::Raised(m),
        Ok(bound) => {
            let ghost b = bound;
            let out = body(bound);
            match out {
                Ok(v) => CallOutcome::Returned(v),
                Err(e) => CallOutcome::Raised(e),
            }
        },
    }
}

} // verus!
