//! Arrays, under their `V8`-prefixed names.
use vstd::prelude::*;

verus! {

/// A JavaScript array; see [`crate::v8::types::array::LocalArray`].
pub type V8LocalArray = crate::v8::types::array::LocalArray;

/// An iterator over the elements of an array.
pub type V8LocalArrayIterator<'array> = crate::v8::types::array::V8LocalArrayIterator<'array>;

} // verus!
