//! The contexts, under their `V8`-prefixed names.
use vstd::prelude::*;

verus! {

/// A JavaScript execution context; see [`crate::v8::context::Context`].
pub type V8Context<T> = crate::v8::context::Context<T>;

/// A data guard of a context; see
/// [`crate::v8::context::ContextDataGuard`].
pub type V8ContextDataGuard = crate::v8::context::ContextDataGuard;

} // verus!
