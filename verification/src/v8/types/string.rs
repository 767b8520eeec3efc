//! JavaScript strings.
use vstd::prelude::*;

use super::any::{LocalValueAny, TypeFlags};
use super::utf8::utf8_conversion;
use crate::v8::isolate_scope::IsolateScope;

verus! {

/// A JavaScript string value.
pub struct LocalString(pub LocalValueAny);

impl LocalString {
    /// The value is a string the engine can convert to UTF-8.
    pub open spec fn wf(&self) -> bool {
        self.0@.flags.is_string && self.0@.utf8 is Some
    }

    /// The text of the string.
    pub open spec fn text(&self) -> Seq<char> {
        self.0@.utf8->Some_0
    }

    /// Creates a new string holding `s`.
    pub fn new(s: &str, isolate_scope: &IsolateScope) -> (r: Self)
        ensures
            r.wf(),
            r.text() == s@,
            r.0@.flags == (TypeFlags { is_string: true, ..TypeFlags::spec_none() }),
            r.0@.elements.len() == 0,
            r.0@.properties.len() == 0,
    {
        let mut flags = TypeFlags::none();
        flags.is_string = true;
        let r = LocalString(LocalValueAny {
            flags,
            long_value: 0,
            bool_value: false,
            utf8: Some(String::from_str(s)),
            elements: Vec::new(),
            bytes: Vec::new(),
            properties: Vec::new(),
        });
        r
    }

    /// Converts a value into a string, failing when it is not one.
    pub fn try_from_any(value: LocalValueAny) -> (r: Result<Self, &'static str>)
        ensures
            value@.flags.is_string ==> (r matches Ok(s) && s.0@ == value@),
            !value@.flags.is_string ==> r == Err::<Self, &'static str>("Value is not a string"),
    {
        if !value.is_string() {
            return Err("Value is not a string");
        }
        Ok(LocalString(value))
    }
}

/// A string made from a text converts back to that very text: a string
/// the engine can convert to UTF-8 gives its text, whatever else is
/// reported of it.
pub proof fn law_string_text_round_trip(string: LocalString, text: Seq<char>)
    requires
        string.wf(),
        string.text() == text,
    ensures
        utf8_conversion(string.0@) == Ok::<Seq<char>, &'static str>(text),
{
}

} // verus!
