//! An isolate: an isolated instance of the V8 engine with its own heap.
use vstd::prelude::*;

use crate::v8::isolate_scope::V8IsolateScope;

verus! {

/// The maximum heap size of an isolate created with [`V8Isolate::new`]
/// (1 GiB).
pub const DEFAULT_MAX_HEAP_SIZE: usize = 1073741824;

/// An ID type for an isolate. IDs are set for each new isolate created
/// automatically.
#[derive(Debug, Copy, Clone, PartialEq, Eq, Structural, Hash)]
pub struct IsolateId(pub u64);

impl From<u64> for IsolateId {
    fn from(value: u64) -> (r: Self)
        ensures
            r.0 == value,
    {
        Self(value)
    }
}

impl vstd::std_specs::convert::FromSpecImpl<u64> for IsolateId {
    open spec fn obeys_from_spec() -> bool {
        true
    }

    open spec fn from_spec(v: u64) -> Self {
        IsolateId(v)
    }
}

/// An isolate. An isolate obtained from the engine while it runs a
/// native function (`no_release`) is not freed by its owner.
#[derive(Debug)]
pub struct V8Isolate {
    /// The initial heap size, in bytes.
    pub initial_heap_size: usize,
    /// The maximum heap size, in bytes.
    pub maximum_heap_size: usize,
    /// Whether the isolate belongs to someone else and is not freed
    /// with this object.
    pub no_release: bool,
}

impl V8Isolate {
    /// Creates a new isolate with the default heap size (up to 1 GiB).
    pub fn new() -> (r: Self)
        ensures
            r.initial_heap_size == 0,
            r.maximum_heap_size == DEFAULT_MAX_HEAP_SIZE,
            !r.no_release,
    {
        Self::new_with_limits(0, DEFAULT_MAX_HEAP_SIZE)
    }

    /// Creates a new isolate with the given heap limits, in bytes.
    pub fn new_with_limits(initial_heap_size_in_bytes: usize, maximum_heap_size_in_bytes: usize) -> (r: Self)
        ensures
            r.initial_heap_size == initial_heap_size_in_bytes,
            r.maximum_heap_size == maximum_heap_size_in_bytes,
            !r.no_release,
    {
        V8Isolate {
            initial_heap_size: initial_heap_size_in_bytes,
            maximum_heap_size: maximum_heap_size_in_bytes,
            no_release: false,
        }
    }

    /// Enters the isolate for code invocation. The isolate is exited
    /// when the returned scope goes away.
    pub fn enter(&self) -> (r: V8IsolateScope<'_>)
        ensures
            r.isolate == self,
            r.entered,
    {
        V8IsolateScope::new(self)
    }
}

} // verus!
