//! Foreign data handed to the JavaScript engine.
use vstd::prelude::*;

use super::any::{LocalValueAny, TypeFlags};
use crate::v8::isolate_scope::IsolateScope;

verus! {

/// A foreign, non-JavaScript object which can be passed around in
/// JavaScript: the JavaScript value referring to it, and the data
/// itself when it is known here (it is for the data handed over with
/// [`LocalExternalData::new`]; it is not for a value the engine hands
/// back, whose data is only known to the one who made it).
pub struct LocalExternalData<T> {
    /// The JavaScript value referring to the data.
    pub value: LocalValueAny,
    /// The data, when known.
    pub data: Option<T>,
}

impl<T> LocalExternalData<T> {
    /// The value is external data.
    pub open spec fn wf(&self) -> bool {
        self.value@.flags.is_external_data
    }

    /// Hands `data` to the engine and returns the value referring to
    /// it, which keeps the data.
    pub fn new(data: T, isolate_scope: &IsolateScope) -> (r: Self)
        ensures
            r.wf(),
            r.value.is_bare(TypeFlags { is_external_data: true, ..TypeFlags::spec_none() }),
            r.data == Some(data),
    {
        let mut flags = TypeFlags::none();
        flags.is_external_data = true;
        LocalExternalData { value: LocalValueAny::bare(flags), data: Some(data) }
    }

    /// The data the value refers to.
    pub fn get_data(&self) -> (r: &T)
        requires
            self.data is Some,
        ensures
            Some(*r) == self.data,
    {
        self.data.as_ref().unwrap()
    }

    /// The data the value refers to, for modification in place.
    pub fn get_data_mut(&mut self) -> (r: &mut T)
        requires
            old(self).data is Some,
        ensures
            Some(*r) == old(self).data,
            final(self).data == Some(*final(r)),
            final(self).value == old(self).value,
    {
        self.data.as_mut().unwrap()
    }

    /// Converts a value into external data, failing when it is not
    /// external data. The data it refers to is not known here.
    pub fn try_from_any(value: LocalValueAny) -> (r: Result<Self, &'static str>)
        ensures
            value@.flags.is_external_data ==> (r matches Ok(a) && a.value@ == value@ && a.data is None),
            !value@.flags.is_external_data ==> r == Err::<Self, &'static str>("Value is not a string"),
    {
        if !value.is_external_data() {
            return Err("Value is not a string");
        }
        Ok(LocalExternalData { value, data: None })
    }
}

} // verus!
