//! The entered contexts, under their `V8`-prefixed names.
use vstd::prelude::*;

verus! {

/// An entered context; see [`crate::v8::context_scope::ContextScope`].
pub type V8ContextScope<'isolate_scope, 'isolate, T> = crate::v8::context_scope::ContextScope<'isolate_scope, 'isolate, T>;

/// A data guard of an entered context; see
/// [`crate::v8::context_scope::ContextScopeDataGuard`].
pub type V8ContextScopeDataGuard = crate::v8::context_scope::ContextScopeDataGuard;

} // verus!
