//! Try-catch blocks, under their `V8`-prefixed names.
use vstd::prelude::*;

verus! {

/// A try-catch block; see [`crate::v8::types::try_catch::TryCatch`].
pub type V8TryCatch = crate::v8::types::try_catch::TryCatch;

} // verus!
