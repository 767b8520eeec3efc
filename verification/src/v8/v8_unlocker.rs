//! Unlockers, under their `V8`-prefixed names.
use vstd::prelude::*;

verus! {

/// An unlocker; see [`crate::v8::types::unlocker::Unlocker`].
pub type V8Unlocker = crate::v8::types::unlocker::Unlocker;

} // verus!
