//! UTF-8 strings, under their `V8`-prefixed names.
use vstd::prelude::*;

verus! {

/// A UTF-8 string; see [`crate::v8::types::utf8::LocalUtf8`].
pub type V8LocalUtf8 = crate::v8::types::utf8::LocalUtf8;

} // verus!
