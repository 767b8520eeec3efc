//! Catching the exceptions raised while JavaScript code runs.
use vstd::prelude::*;

use super::any::LocalValueAny;
use crate::v8::isolate_scope::IsolateScope;

verus! {

/// A try-catch block: it catches any exception raised while it lives.
pub struct TryCatch {
    /// The exception caught, if any.
    pub exception: Option<LocalValueAny>,
    /// The stack trace of the exception caught, if any.
    pub trace: Option<LocalValueAny>,
    /// Whether the execution was terminated.
    pub terminated: bool,
}

impl TryCatch {
    /// A new try-catch block, with nothing caught yet.
    pub fn new(isolate_scope: &IsolateScope) -> (r: Self)
        ensures
            r.exception is None,
            r.trace is None,
            !r.terminated,
    {
        TryCatch { exception: None, trace: None, terminated: false }
    }

    /// Whether the execution was terminated.
    pub fn has_terminated(&self) -> (r: bool)
        ensures
            r == self.terminated,
    {
        self.terminated
    }

    /// The stack trace of the exception caught, if any.
    pub fn get_trace(&self) -> (r: Option<LocalValueAny>)
        ensures
            match self.trace {
                Some(t) => r matches Some(v) && v@ == t@,
                None => r is None,
            },
    {
        match &self.trace {
            Some(t) => Some(t.duplicate()),
            None => None,
        }
    }

    /// The exception caught; there must be one.
    pub fn get_exception(&self) -> (r: LocalValueAny)
        requires
            self.exception is Some,
        ensures
            Some(r@) == match self.exception {
                Some(e) => Some(e@),
                None => None,
            },
    {
        match &self.exception {
            Some(e) => e.duplicate(),
            None => LocalValueAny::undefined(),
        }
    }
}

} // verus!
