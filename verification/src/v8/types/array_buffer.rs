//! JavaScript array buffers.
use vstd::prelude::*;

use super::any::{classify, LocalValueAny, Type, TypeFlags};
use crate::v8::isolate_scope::IsolateScope;

verus! {

/// A JavaScript array buffer: raw binary data.
pub struct LocalArrayBuffer(pub LocalValueAny);

impl LocalArrayBuffer {
    /// The value is an array buffer.
    pub open spec fn wf(&self) -> bool {
        self.0@.flags.is_array_buffer
    }

    /// Creates a new array buffer holding a copy of `bytes`.
    pub fn new(bytes: &[u8], isolate_scope: &IsolateScope) -> (r: Self)
        ensures
            r.wf(),
            r.0@.flags == (TypeFlags { is_array_buffer: true, is_object: true, ..TypeFlags::spec_none() }),
            r.0@.bytes == bytes@,
            classify(r.0@.flags) == Some(Type::ArrayBuffer),
    {
        let mut flags = TypeFlags::none();
        flags.is_array_buffer = true;
        flags.is_object = true;
        let mut value = LocalValueAny::bare(flags);
        let mut i: usize = 0;
        while i < bytes.len()
            invariant
                i <= bytes@.len(),
                value@.flags == flags,
                value@.bytes == bytes@.take(i as int),
            decreases bytes@.len() - i,
        {
            value.bytes.push(bytes[i]);
            i = i + 1;
            assert(value@.bytes =~= bytes@.take(i as int));
        }
        assert(bytes@.take(bytes@.len() as int) =~= bytes@);
        LocalArrayBuffer(value)
    }

    /// The bytes of the buffer.
    pub fn data(&self) -> (r: &[u8])
        ensures
            r@ == self.0@.bytes,
    {
        self.0.bytes.as_slice()
    }

    /// Converts a value into an array buffer, failing when it is not
    /// one.
    pub fn try_from_any(value: LocalValueAny) -> (r: Result<Self, &'static str>)
        ensures
            value@.flags.is_array_buffer ==> (r matches Ok(a) && a.0@ == value@),
            !value@.flags.is_array_buffer ==> r == Err::<Self, &'static str>("Value is not an array buffer"),
    {
        if !value.is_array_buffer() {
            return Err("Value is not an array buffer");
        }
        Ok(LocalArrayBuffer(value))
    }
}

} // verus!
