//! Objects, under their `V8`-prefixed names.
use vstd::prelude::*;

verus! {

/// A JavaScript object; see [`crate::v8::types::object::LocalObject`].
pub type V8LocalObject = crate::v8::types::object::LocalObject;

} // verus!
