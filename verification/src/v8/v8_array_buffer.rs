//! Array buffers, under their `V8`-prefixed names.
use vstd::prelude::*;

verus! {

/// A JavaScript array buffer; see
/// [`crate::v8::types::array_buffer::LocalArrayBuffer`].
pub type V8LocalArrayBuffer = crate::v8::types::array_buffer::LocalArrayBuffer;

} // verus!
