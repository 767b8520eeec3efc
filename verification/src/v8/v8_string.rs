//! Strings, under their `V8`-prefixed name.
use vstd::prelude::*;

use crate::v8::isolate_scope::V8IsolateScope;
use crate::v8::types::any::{LocalValueAny, TypeFlags};
use crate::v8::types::utf8::utf8_conversion;

verus! {

/// A JavaScript string.
pub struct V8LocalString(pub LocalValueAny);

impl V8LocalString {
    /// The text of the string.
    pub open spec fn text(&self) -> Option<Seq<char>> {
        self.0@.utf8
    }

    /// Creates a new string holding `string`.
    pub fn new(isolate_scope: &V8IsolateScope, string: &str) -> (r: Self)
        ensures
            r.text() == Some(string@),
            r.0@.flags == (TypeFlags { is_string: true, ..TypeFlags::spec_none() }),
    {
        let mut flags = TypeFlags::none();
        flags.is_string = true;
        let mut value = LocalValueAny::bare(flags);
        value.utf8 = Some(String::from_str(string));
        V8LocalString(value)
    }

    /// The string as a generic value.
    pub fn to_value(&self) -> (r: LocalValueAny)
        ensures
            r@ == self.0@,
    {
        self.0.duplicate()
    }

    /// The string as an owned UTF-8 string.
    pub fn to_string(&self) -> (r: Result<String, &'static str>)
        ensures
            match utf8_conversion(self.0@) {
                Ok(t) => r matches Ok(s) && s@ == t,
                Err(_) => r == Err::<String, &'static str>("The V8LocalString isn't a valid UTF8 string."),
            },
    {
        match self.0.to_utf8() {
            Some(u) => Ok(u.into_string()),
            None => Err("The V8LocalString isn't a valid UTF8 string."),
        }
    }
}

} // verus!
