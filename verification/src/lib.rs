//! Bindings to the V8 JavaScript engine: isolates, contexts, scoped
//! values, native function arguments and the inspector protocol
//! messages.
//!
//! The engine-held state the bindings read and write (the private data
//! slots of a context, the elements of an array, the arguments of a
//! native call, the facts the engine reports about a value) is kept
//! here as plain values, so that the bindings' logic is checked.
use vstd::prelude::*;

pub mod inspector;
pub mod v8;

verus! {

/// The number of private data slots reserved for the crate's own
/// data at the start of a context's slot table.
pub const INTERNAL_OFFSET: usize = 1;

/// A user-available data index. The users of the crate may use this
/// index to store their data in V8.
#[derive(Debug, Copy, Clone, PartialEq, Eq, Structural, Hash)]
pub struct UserIndex(pub usize);

impl From<usize> for UserIndex {
    fn from(value: usize) -> (r: Self)
        ensures
            r.0 == value,
    {
        Self(value)
    }
}

impl vstd::std_specs::convert::FromSpecImpl<usize> for UserIndex {
    open spec fn obeys_from_spec() -> bool {
        true
    }

    open spec fn from_spec(v: usize) -> Self {
        UserIndex(v)
    }
}

/// A raw data index without any offsets: the actual slot in the
/// context's slot table. The first slots hold the crate's internal
/// data, so a [`UserIndex`] is always shifted by
/// [`INTERNAL_OFFSET`] before it reaches the table.
#[derive(Debug, Copy, Clone, PartialEq, Eq, Structural, Hash)]
pub struct RawIndex(pub usize);

/// The raw slot a user index refers to.
pub open spec fn raw_of(index: UserIndex) -> RawIndex {
    RawIndex((index.0 + INTERNAL_OFFSET) as usize)
}

/// A user index whose raw slot can be addressed (the shift does not
/// overflow).
pub open spec fn user_index_fits(index: UserIndex) -> bool {
    index.0 + INTERNAL_OFFSET <= usize::MAX
}

impl RawIndex {
    /// Converts a user index into the raw slot index it addresses.
    pub fn from_user(value: UserIndex) -> (r: Self)
        requires
            user_index_fits(value),
        ensures
            r == raw_of(value),
            r.0 == value.0 + INTERNAL_OFFSET,
    {
        RawIndex(value.0 + INTERNAL_OFFSET)
    }
}

/// Distinct user indices address distinct raw slots, and no user index
/// addresses one of the slots reserved for the crate's internal data.
pub proof fn lemma_user_indices_never_reach_internal_slots(a: UserIndex, b: UserIndex)
    requires
        user_index_fits(a),
        user_index_fits(b),
    ensures
        raw_of(a).0 >= INTERNAL_OFFSET,
        a != b ==> raw_of(a) != raw_of(b),
        raw_of(a) == raw_of(b) ==> a == b,
{
}

} // verus!
