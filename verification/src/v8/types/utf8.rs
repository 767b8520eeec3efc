//! UTF-8 strings converted from JavaScript values.
use vstd::prelude::*;

use super::any::{LocalValueAny, ValueView};
use super::string::LocalString;

verus! {

/// A UTF-8 string obtained from a JavaScript value.
pub struct LocalUtf8 {
    pub text: String,
}

/// What converting a value to a UTF-8 string gives: only a string or
/// a string object can be converted, and only when the engine manages
/// to.
pub open spec fn utf8_conversion(v: ValueView) -> Result<Seq<char>, &'static str> {
    if !v.flags.is_string && !v.flags.is_string_object {
        Err("Value is not string")
    } else {
        match v.utf8 {
            Some(s) => Ok(s),
            None => Err("Failed converting to utf8"),
        }
    }
}

impl LocalUtf8 {
    /// The string.
    pub fn as_str(&self) -> (r: &str)
        ensures
            r@ == self.text@,
    {
        self.text.as_str()
    }

    /// Converts a value into a UTF-8 string, failing when the value is
    /// neither a string nor a string object, or when the engine cannot
    /// convert it.
    pub fn try_from_any(value: LocalValueAny) -> (r: Result<Self, &'static str>)
        ensures
            match utf8_conversion(value@) {
                Ok(s) => r matches Ok(u) && u.text@ == s,
                Err(e) => r == Err::<Self, &'static str>(e),
            },
    {
        if !value.is_string() && !value.is_string_object() {
            return Err("Value is not string");
        }
        match value.utf8 {
            Some(text) => Ok(LocalUtf8 { text }),
            None => Err("Failed converting to utf8"),
        }
    }

    /// Converts a string value; a string always converts.
    pub fn from_string(value: LocalString) -> (r: Self)
        requires
            value.wf(),
        ensures
            Some(r.text@) == value.0@.utf8,
    {
        let LocalString(any) = value;
        match any.utf8 {
            Some(text) => LocalUtf8 { text },
            None => LocalUtf8 { text: String::new() },
        }
    }

    /// The owned string.
    pub fn into_string(self) -> (r: String)
        ensures
            r@ == self.text@,
    {
        self.text
    }
}

/// Only a string or a string object converts to UTF-8, and either
/// converts to the text the engine gives for it: a string object is
/// converted just as a string is; a value that is neither is refused as
/// not a string, whatever text the engine might give for it; a string
/// for which the engine gives no text fails the conversion.
pub proof fn law_strings_and_string_objects_convert(v: ValueView)
    ensures
        (v.flags.is_string || v.flags.is_string_object) && v.utf8 is Some ==> utf8_conversion(v)
            == Ok::<Seq<char>, &'static str>(v.utf8->Some_0),
        v.flags.is_string_object && !v.flags.is_string && v.utf8 is Some ==> utf8_conversion(v) is Ok,
        !v.flags.is_string && !v.flags.is_string_object ==> utf8_conversion(v) == Err::<
            Seq<char>,
            &'static str,
        >("Value is not string"),
        (v.flags.is_string || v.flags.is_string_object) && v.utf8 is None ==> utf8_conversion(v)
            == Err::<Seq<char>, &'static str>("Failed converting to utf8"),
        utf8_conversion(v) matches Ok(t) ==> v.utf8 == Some(t),
{
}

} // verus!
