//! Sets, under their `V8`-prefixed names.
use vstd::prelude::*;

verus! {

/// A JavaScript set; see [`crate::v8::types::set::LocalSet`].
pub type V8LocalSet = crate::v8::types::set::LocalSet;

} // verus!
