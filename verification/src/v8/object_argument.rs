//! Building a Rust structure from a single JavaScript object argument:
//! what a structure derived as a native function argument does with the
//! object it is given. Each field of the structure takes the property
//! of the same name, converted to the field's type; an optional field
//! may be left out (or be `null` or `undefined`); a property that no
//! field takes is refused.
use vstd::prelude::*;

use crate::v8::argument_binding::{conversion, convert_argument, ArgType, ArgValue, ArgView};
use crate::v8::types::any::{classify, lemma_classify_reports, LocalValueAny, TypeFlags, ValueView};
use crate::v8::types::object::property;

verus! {

/// The type of a field: a value converted to a type, or a structure
/// built from an object in the same way (a nested structure).
pub enum FieldType {
    /// A value converted to the type.
    Plain(ArgType),
    /// A structure with these fields.
    Structure(Vec<FieldSpec>),
}

/// A field of a structure built from an object: its name, its type,
/// and whether it is optional (an `Option`).
pub struct FieldSpec {
    pub name: String,
    pub ty: FieldType,
    pub optional: bool,
}

/// The value of a field.
pub enum FieldValue {
    /// A converted value.
    Plain(ArgValue),
    /// A nested structure: the values of its fields, in order.
    Structure(Vec<Option<FieldValue>>),
}

/// The abstract content of a field's value.
pub enum FieldView {
    Plain(ArgView),
    Structure(Seq<Option<FieldView>>),
}

/// The abstract content of a field's value, field by field.
pub open spec fn field_value_view(v: &FieldValue) -> FieldView
    decreases v,
{
    match v {
        FieldValue::Plain(a) => FieldView::Plain(a@),
        FieldValue::Structure(xs) => FieldView::Structure(
            Seq::new(
                xs@.len(),
                |i: int|
                    if 0 <= i < xs@.len() {
                        proof {
                            assert(decreases_to!(v => xs@[i]));
                        }
                        match xs@[i] {
                            Some(x) => {
                                proof {
                                    assert(decreases_to!(xs@[i] => x));
                                }
                                Some(field_value_view(&x))
                            },
                            None => None,
                        }
                    } else {
                        arbitrary()
                    },
            ),
        ),
    }
}

/// The abstract content of an optional field's value.
pub open spec fn field_view(f: Option<FieldValue>) -> Option<FieldView> {
    match f {
        Some(x) => Some(field_value_view(&x)),
        None => None,
    }
}

/// The value is `null` or `undefined` (it reports no kind at all).
pub open spec fn absent(v: ValueView) -> bool {
    v.flags.is_null || v.flags == TypeFlags::spec_none()
}

/// The message for a required field with no property.
pub open spec fn not_given_message(name: Seq<char>) -> Seq<char> {
    name + " was not given"@
}

/// The message for a required field whose property is `null` or
/// `undefined`.
pub open spec fn not_exists_message(name: Seq<char>) -> Seq<char> {
    "Field "@ + name + " does not exists."@
}

/// The message for a property that does not convert to its field's
/// type.
pub open spec fn field_error_message(name: Seq<char>, error: Seq<char>) -> Seq<char> {
    "Failed getting field "@ + name + ", "@ + error + "."@
}

/// What converting a property to a field's type gives.
pub open spec fn value_outcome(ty: FieldType, v: ValueView) -> Result<FieldView, Seq<char>>
    decreases ty, 0int,
{
    match ty {
        FieldType::Plain(t) => match conversion(t, v) {
            Ok(a) => Ok(FieldView::Plain(a)),
            Err(e) => Err(e@),
        },
        FieldType::Structure(fs) => {
            proof {
                assert(decreases_to!(ty => fs));
            }
            match object_binding(v, fs@) {
                Ok(s) => Ok(FieldView::Structure(s)),
                Err(e) => Err(e),
            }
        },
    }
}

/// What a field takes from the properties of the object: its converted
/// property, nothing (for an optional field with no property or a
/// `null` or `undefined` one), or the error.
pub open spec fn field_outcome(f: FieldSpec, props: Seq<(Seq<char>, ValueView)>) -> Result<Option<FieldView>, Seq<char>>
    decreases f, 0int,
{
    match property(props, f.name@) {
        None => if f.optional {
            Ok(None)
        } else {
            Err(not_given_message(f.name@))
        },
        Some(v) => if absent(v) {
            if f.optional {
                Ok(None)
            } else {
                Err(not_exists_message(f.name@))
            }
        } else {
            match value_outcome(f.ty, v) {
                Ok(a) => Ok(Some(a)),
                Err(e) => Err(field_error_message(f.name@, e)),
            }
        },
    }
}

/// Puts a field's value in front of what the following fields give.
pub open spec fn prepend_field(front: Option<FieldView>, rest: Result<Seq<Option<FieldView>>, Seq<char>>) -> Result<
    Seq<Option<FieldView>>,
    Seq<char>,
> {
    match rest {
        Ok(s) => Ok(seq![front] + s),
        Err(e) => Err(e),
    }
}

/// What the fields take, in order: every field's value, or the error of
/// the first one that fails.
pub open spec fn bind_fields(fields: Seq<FieldSpec>, props: Seq<(Seq<char>, ValueView)>) -> Result<
    Seq<Option<FieldView>>,
    Seq<char>,
>
    decreases fields, 0int,
{
    if fields.len() == 0 {
        Ok(Seq::empty())
    } else {
        match field_outcome(fields[0], props) {
            Err(e) => Err(e),
            Ok(b) => prepend_field(b, bind_fields(fields.subrange(1, fields.len() as int), props)),
        }
    }
}

/// The names of the fields.
pub open spec fn field_names(fields: Seq<FieldSpec>) -> Seq<Seq<char>> {
    fields.map_values(|f: FieldSpec| f.name@)
}

/// The names of the properties that no field takes, in order.
pub open spec fn unknown_names(props: Seq<(Seq<char>, ValueView)>, names: Seq<Seq<char>>) -> Seq<Seq<char>>
    decreases props.len(),
{
    if props.len() == 0 {
        Seq::empty()
    } else {
        let rest = unknown_names(props.drop_last(), names);
        if names.contains(props.last().0) {
            rest
        } else {
            rest.push(props.last().0)
        }
    }
}

/// Names joined with commas.
pub open spec fn join(names: Seq<Seq<char>>) -> Seq<char>
    decreases names.len(),
{
    if names.len() == 0 {
        Seq::empty()
    } else if names.len() == 1 {
        names[0]
    } else {
        join(names.drop_last()) + ","@ + names.last()
    }
}

/// The message for properties that no field takes.
pub open spec fn unknown_message(names: Seq<Seq<char>>) -> Seq<char> {
    "Unknown properties given: "@ + join(names)
}

/// The message for an argument that is not an object.
pub open spec fn not_object_message() -> Seq<char> {
    "Given argument must be an object"@
}

/// What building a structure with the given fields from the value
/// gives: the value of every field, in order, or the error: the value
/// is not an object; else the error of the first field that fails;
/// else, when some properties are taken by no field, their names.
/// (The fields of a structure have names of their own, so each field
/// reads the property of its name as the object was given.)
pub open spec fn object_binding(v: ValueView, fields: Seq<FieldSpec>) -> Result<Seq<Option<FieldView>>, Seq<char>>
    decreases fields, 1int,
{
    if !v.flags.is_object {
        Err(not_object_message())
    } else {
        match bind_fields(fields, v.properties) {
            Err(e) => Err(e),
            Ok(s) => {
                let unknown = unknown_names(v.properties, field_names(fields));
                if unknown.len() > 0 {
                    Err(unknown_message(unknown))
                } else {
                    Ok(s)
                }
            },
        }
    }
}

/// The value of the first property named `name`, if there is one.
fn find_property(v: &LocalValueAny, name: &String) -> (r: Option<LocalValueAny>)
    ensures
        match property(v@.properties, name@) {
            Some(p) => r matches Some(x) && x@ == p,
            None => r is None,
        },
{
    let n = v.properties.len();
    let mut i: usize = 0;
    assert(v@.properties.skip(0) =~= v@.properties);
    while i < n
        invariant
            n == v.properties@.len(),
            n == v@.properties.len(),
            i <= n,
            property(v@.properties, name@) == property(v@.properties.skip(i as int), name@),
        decreases n - i,
    {
        let ghost rest = v@.properties.skip(i as int);
        assert(rest[0] == v@.properties[i as int]);
        if v.properties[i].0.eq(name) {
            return Some(v.properties[i].1.duplicate());
        }
        assert(rest.drop_first() =~= v@.properties.skip(i + 1));
        i = i + 1;
    }
    None
}

/// Whether one of the fields is named `name`.
fn has_field(fields: &Vec<FieldSpec>, name: &String) -> (r: bool)
    ensures
        r == field_names(fields@).contains(name@),
{
    let n = fields.len();
    let mut i: usize = 0;
    while i < n
        invariant
            n == fields@.len(),
            i <= n,
            forall|j: int| 0 <= j < i ==> fields@[j].name@ != name@,
        decreases n - i,
    {
        if fields[i].name.eq(name) {
            assert(field_names(fields@)[i as int] == name@);
            return true;
        }
        i = i + 1;
    }
    assert forall|j: int| 0 <= j < field_names(fields@).len() implies field_names(fields@)[j] != name@ by {
        assert(fields@[j].name@ != name@);
    }
    false
}

/// Converts a property to a field's type.
fn convert_field(ty: &FieldType, p: LocalValueAny) -> (r: Result<FieldValue, String>)
    ensures
        match value_outcome(*ty, p@) {
            Ok(x) => r matches Ok(y) && field_value_view(&y) == x,
            Err(e) => r matches Err(m) && m@ == e,
        },
    decreases *ty, 0int,
{
    match ty {
        FieldType::Plain(t) => match convert_argument(*t, p) {
            Ok(a) => Ok(FieldValue::Plain(a)),
            Err(e) => Err(String::from_str(e)),
        },
        FieldType::Structure(fs) => {
            proof {
                assert(decreases_to!(*ty => *fs));
            }
            match bind_object(&p, fs) {
                Ok(values) => {
                    let r = FieldValue::Structure(values);
                    proof {
                        match object_binding(p@, fs@) {
                            Ok(s) => {
                                let sv = match field_value_view(&r) {
                                    FieldView::Structure(q) => q,
                                    _ => Seq::empty(),
                                };
                                assert forall|k: int| 0 <= k < s.len() implies #[trigger] sv[k] == s[k] by {
                                    assert(field_view(values@[k]) == s[k]);
                                }
                                assert(sv =~= s);
                            },
                            Err(_) => {},
                        }
                    }
                    Ok(r)
                },
                Err(m) => Err(m),
            }
        },
    }
}

/// What one field takes from the properties of the object.
fn bind_field(v: &LocalValueAny, f: &FieldSpec) -> (r: Result<Option<FieldValue>, String>)
    ensures
        match field_outcome(*f, v@.properties) {
            Ok(x) => r matches Ok(y) && field_view(y) == x,
            Err(e) => r matches Err(m) && m@ == e,
        },
    decreases *f, 0int,
{
    match find_property(v, &f.name) {
        None => {
            if f.optional {
                Ok(None)
            } else {
                let mut m = f.name.clone();
                m.append(" was not given");
                Err(m)
            }
        },
        Some(p) => {
            proof {
                lemma_classify_reports(p@.flags);
            }
            if p.is_null() || p.get_type().is_none() {
                if f.optional {
                    Ok(None)
                } else {
                    let mut m = String::from_str("Field ");
                    m.append(f.name.as_str());
                    m.append(" does not exists.");
                    Err(m)
                }
            } else {
                proof {
                    assert(decreases_to!(*f => f.ty));
                }
                match convert_field(&f.ty, p) {
                    Ok(a) => Ok(Some(a)),
                    Err(e) => {
                        let mut m = String::from_str("Failed getting field ");
                        m.append(f.name.as_str());
                        m.append(", ");
                        m.append(e.as_str());
                        m.append(".");
                        Err(m)
                    },
                }
            }
        },
    }
}

/// Builds a structure with the given fields from the value, as a
/// structure derived as a native function argument does: the value
/// must be an object; each field, in order, takes the property of its
/// name converted to its type (a nested structure is built from its
/// property in the same way; an optional field may be left out, or be
/// `null` or `undefined`); the first field that fails stops the build
/// with its message; then the properties that no field takes are
/// refused, by name.
pub fn bind_object(v: &LocalValueAny, fields: &Vec<FieldSpec>) -> (r: Result<Vec<Option<FieldValue>>, String>)
    ensures
        match object_binding(v@, fields@) {
            Ok(s) => r matches Ok(x) && x@.len() == s.len() && forall|k: int|
                0 <= k < s.len() ==> field_view(#[trigger] x@[k]) == s[k],
            Err(e) => r matches Err(m) && m@ == e,
        },
    decreases fields@, 1int,
{
    if !v.is_object() {
        return Err(String::from_str("Given argument must be an object"));
    }
    let mut values: Vec<Option<FieldValue>> = Vec::new();
    let mut i: usize = 0;
    assert(fields@.skip(0) =~= fields@);
    while i < fields.len()
        invariant
            v@.flags.is_object,
            i <= fields@.len(),
            values@.len() == i,
            bind_fields(fields@, v@.properties) == prepend_all_fields(
                Seq::new(values@.len(), |k: int| field_view(values@[k])),
                bind_fields(fields@.skip(i as int), v@.properties),
            ),
        decreases fields@.len() - i,
    {
        let ghost before = Seq::new(values@.len(), |k: int| field_view(values@[k]));
        let ghost tail = fields@.skip(i as int);
        assert(tail[0] == fields@[i as int]);
        assert(tail.subrange(1, tail.len() as int) =~= fields@.skip(i + 1));
        proof {
            assert(decreases_to!(fields@ => fields@[i as int]));
        }
        let b = match bind_field(v, &fields[i]) {
            Ok(b) => b,
            Err(m) => {
                assert(bind_fields(tail, v@.properties) == Err::<Seq<Option<FieldView>>, Seq<char>>(m@));
                assert(bind_fields(fields@, v@.properties) == Err::<Seq<Option<FieldView>>, Seq<char>>(m@));
                assert(object_binding(v@, fields@) == Err::<Seq<Option<FieldView>>, Seq<char>>(m@));
                return Err(m);
            },
        };
        let ghost bv = field_view(b);
        values.push(b);
        i = i + 1;
        proof {
            let after = Seq::new(values@.len(), |k: int| field_view(values@[k]));
            assert(after =~= before + seq![bv]);
            match bind_fields(fields@.skip(i as int), v@.properties) {
                Ok(s) => {
                    assert(before + (seq![bv] + s) =~= after + s);
                },
                Err(_) => {},
            }
        }
    }
    proof {
        assert(fields@.skip(fields@.len() as int).len() == 0);
        let fin = Seq::new(values@.len(), |k: int| field_view(values@[k]));
        assert(fin + Seq::<Option<FieldView>>::empty() =~= fin);
    }
    let n = v.properties.len();
    let mut message = String::from_str("Unknown properties given: ");
    let mut found: bool = false;
    let mut j: usize = 0;
    let ghost names = field_names(fields@);
    let ghost prefix = "Unknown properties given: "@;
    assert(v@.properties.take(0) =~= Seq::<(Seq<char>, ValueView)>::empty());
    while j < n
        invariant
            n == v.properties@.len(),
            n == v@.properties.len(),
            j <= n,
            names == field_names(fields@),
            prefix == "Unknown properties given: "@,
            found == (unknown_names(v@.properties.take(j as int), names).len() > 0),
            message@ == prefix + join(unknown_names(v@.properties.take(j as int), names)),
        decreases n - j,
    {
        let ghost taken = v@.properties.take(j as int);
        let ghost next = v@.properties.take(j + 1);
        assert(next.drop_last() =~= taken);
        assert(next.last() == v@.properties[j as int]);
        assert(v@.properties[j as int].0 == v.properties@[j as int].0@);
        if !has_field(fields, &v.properties[j].0) {
            let ghost u = unknown_names(taken, names);
            let ghost x = v@.properties[j as int].0;
            assert(unknown_names(next, names) == u.push(x));
            assert(u.push(x).drop_last() =~= u);
            if found {
                message.append(",");
            }
            message.append(v.properties[j].0.as_str());
            proof {
                if u.len() == 0 {
                    assert(join(u.push(x)) == x);
                    assert(join(u) =~= Seq::<char>::empty());
                    assert(prefix + join(u) + x =~= prefix + join(u.push(x)));
                } else {
                    assert(prefix + join(u) + ","@ + x =~= prefix + join(u.push(x)));
                }
            }
            found = true;
        }
        j = j + 1;
    }
    assert(v@.properties.take(n as int) =~= v@.properties);
    if found {
        return Err(message);
    }
    Ok(values)
}

/// Puts fields' values in front of what the following fields give.
pub open spec fn prepend_all_fields(front: Seq<Option<FieldView>>, rest: Result<Seq<Option<FieldView>>, Seq<char>>) -> Result<
    Seq<Option<FieldView>>,
    Seq<char>,
> {
    match rest {
        Ok(s) => Ok(front + s),
        Err(e) => Err(e),
    }
}

/// What binding the fields gives, field by field: when it succeeds,
/// one value per field, each what its field takes; a field that fails
/// makes the binding fail, with the error of the first one that fails.
proof fn lemma_bind_fields_parts(fields: Seq<FieldSpec>, props: Seq<(Seq<char>, ValueView)>)
    ensures
        bind_fields(fields, props) matches Ok(s) ==> {
            &&& s.len() == fields.len()
            &&& forall|k: int| 0 <= k < s.len() ==> field_outcome(fields[k], props) == Ok::<Option<FieldView>, Seq<char>>(#[trigger] s[k])
        },
        forall|k: int| 0 <= k < fields.len() && (#[trigger] field_outcome(fields[k], props)) is Err ==> bind_fields(fields, props) is Err,
        forall|k: int|
            0 <= k < fields.len() && (forall|m: int| 0 <= m < k ==> (#[trigger] field_outcome(fields[m], props)) is Ok)
                ==> match #[trigger] field_outcome(fields[k], props) {
                Err(e) => bind_fields(fields, props) == Err::<Seq<Option<FieldView>>, Seq<char>>(e),
                Ok(_) => true,
            },
    decreases fields.len(),
{
    if fields.len() > 0 {
        let tail = fields.subrange(1, fields.len() as int);
        lemma_bind_fields_parts(tail, props);
        assert forall|k: int| 0 <= k < tail.len() implies #[trigger] tail[k] == fields[k + 1] by {}
        match field_outcome(fields[0], props) {
            Err(_) => {},
            Ok(b) => {
                match bind_fields(tail, props) {
                    Ok(t) => {
                        let s = seq![b] + t;
                        assert forall|k: int| 0 <= k < s.len() implies field_outcome(fields[k], props)
                            == Ok::<Option<FieldView>, Seq<char>>(#[trigger] s[k]) by {
                            if k > 0 {
                                assert(s[k] == t[k - 1]);
                                assert(tail[k - 1] == fields[k]);
                            }
                        }
                    },
                    Err(_) => {},
                }
                assert forall|k: int|
                    0 <= k < fields.len() && (#[trigger] field_outcome(fields[k], props)) is Err implies bind_fields(
                    fields,
                    props,
                ) is Err by {
                    if k > 0 {
                        assert(tail[k - 1] == fields[k]);
                        assert(field_outcome(tail[k - 1], props) is Err);
                    }
                }
                assert forall|k: int|
                    0 <= k < fields.len() && (forall|m: int| 0 <= m < k ==> (#[trigger] field_outcome(fields[m], props)) is Ok)
                    implies match #[trigger] field_outcome(fields[k], props) {
                    Err(e) => bind_fields(fields, props) == Err::<Seq<Option<FieldView>>, Seq<char>>(e),
                    Ok(_) => true,
                } by {
                    if k > 0 {
                        assert(tail[k - 1] == fields[k]);
                        assert forall|m: int| 0 <= m < k - 1 implies (#[trigger] field_outcome(tail[m], props)) is Ok by {
                            assert(tail[m] == fields[m + 1]);
                            assert(field_outcome(fields[m + 1], props) is Ok);
                        }
                    }
                }
            },
        }
    }
}

/// A field whose property is given, and is neither `null` nor
/// `undefined`, takes that property converted to its type, or the
/// binding fails: an optional field is left empty only when its
/// property is missing, `null` or `undefined`. A property that does not
/// convert makes the binding fail, with "Failed getting field" and the
/// field's name when no earlier field fails; a required field with no
/// property, or a `null` or `undefined` one, makes it fail too.
pub proof fn law_present_fields_are_converted(v: ValueView, fields: Seq<FieldSpec>, i: int)
    requires
        0 <= i < fields.len(),
        v.flags.is_object,
    ensures
        object_binding(v, fields) matches Ok(s) ==> (s[i] is None ==> fields[i].optional && match property(
            v.properties,
            fields[i].name@,
        ) {
            None => true,
            Some(p) => absent(p),
        }),
        object_binding(v, fields) matches Ok(s) ==> (property(v.properties, fields[i].name@) matches Some(p) ==> (!absent(p)
            ==> (value_outcome(fields[i].ty, p) matches Ok(a) && s[i] == Some(a)))),
        !fields[i].optional && match property(v.properties, fields[i].name@) {
            None => true,
            Some(p) => absent(p),
        } ==> object_binding(v, fields) is Err,
        property(v.properties, fields[i].name@) matches Some(p) ==> (!absent(p) ==> (value_outcome(fields[i].ty, p) is Err
            ==> object_binding(v, fields) is Err)),
        property(v.properties, fields[i].name@) matches Some(p) ==> (!absent(p) ==> ((forall|k: int|
            0 <= k < i ==> (#[trigger] field_outcome(fields[k], v.properties)) is Ok) ==> match value_outcome(fields[i].ty, p) {
            Err(e) => object_binding(v, fields) == Err::<Seq<Option<FieldView>>, Seq<char>>(
                field_error_message(fields[i].name@, e),
            ),
            Ok(_) => true,
        })),
        fields[i].ty matches FieldType::Plain(t) ==> (property(v.properties, fields[i].name@) matches Some(p) ==> (!absent(p)
            ==> (conversion(t, p) is Err ==> object_binding(v, fields) is Err))),
{
    lemma_bind_fields_parts(fields, v.properties);
    match bind_fields(fields, v.properties) {
        Ok(s) => {
            assert(field_outcome(fields[i], v.properties) == Ok::<Option<FieldView>, Seq<char>>(s[i]));
        },
        Err(_) => {},
    }
}

} // verus!
