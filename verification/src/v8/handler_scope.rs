//! Handler scopes: the lifetime of the local values created in them.
use vstd::prelude::*;

use crate::v8::isolate::V8Isolate;

verus! {

/// A handlers scope of an isolate: the local values created while it
/// is open are freed when it closes.
pub struct V8HandlersScope<'a> {
    /// The isolate the scope is open in.
    pub isolate: &'a V8Isolate,
}

impl<'a> V8HandlersScope<'a> {
    /// Opens a handlers scope in the isolate.
    pub(crate) fn new(isolate: &'a V8Isolate) -> (r: Self)
        ensures
            r.isolate == isolate,
    {
        V8HandlersScope { isolate }
    }
}

} // verus!
