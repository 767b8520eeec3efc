//! Object templates, under their `V8`-prefixed names.
use vstd::prelude::*;

verus! {

/// An object template; see
/// [`crate::v8::types::object_template::LocalObjectTemplate`].
pub type V8LocalObjectTemplate = crate::v8::types::object_template::LocalObjectTemplate;

} // verus!
