//! Releasing the isolate's lock for a while.
use vstd::prelude::*;

use crate::v8::isolate_scope::IsolateScope;

verus! {

/// An unlocker: while it lives, the isolate's global lock is released;
/// the lock is acquired again when it goes away.
pub struct Unlocker {
    /// Whether the lock is released.
    pub released: bool,
}

impl Unlocker {
    /// Releases the isolate's lock.
    pub fn new(isolate_scope: &IsolateScope) -> (r: Self)
        ensures
            r.released,
    {
        Unlocker { released: true }
    }
}

} // verus!
