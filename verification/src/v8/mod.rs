//! The rust-idiomatic data structures and functions over the V8 engine.
use vstd::prelude::*;

pub mod argument_binding;
pub mod context;
pub mod context_scope;
pub mod data_slots;
pub mod handler_scope;
pub mod inspector;
pub mod isolate;
pub mod isolate_scope;
pub mod iteration;
pub mod object_argument;
pub mod try_catch;
pub mod types;
pub mod v8_array;
pub mod v8_array_buffer;
pub mod v8_context;
pub mod v8_context_scope;
pub mod v8_native_function_template;
pub mod v8_object;
pub mod v8_object_template;
pub mod v8_set;
pub mod v8_string;
pub mod v8_unlocker;
pub mod v8_utf8;
pub mod v8_value;

verus! {

} // verus!
