//! The debugging inspector of the V8 engine and the remote debugging
//! protocol around it.
//!
//! An inspector is created for one isolate and only serves that
//! isolate: it is used through an [`InspectorGuard`], which is handed
//! out only after the isolate has been checked. The messages it
//! exchanges with a remote debugger are described in [`messages`]; the
//! decisions of a debugging session over a WebSocket are in [`server`].
use vstd::prelude::*;
use vstd::string::StringSliceAdditionalSpecFns;
use vstd::utf8::encode_utf8;

use crate::v8::isolate::IsolateId;

pub mod messages;
pub mod server;

verus! {

/// The kinds of input/output failure the debugging facilities report.
#[derive(Debug, Copy, Clone, PartialEq, Eq, Structural)]
pub enum IoErrorKind {
    /// The remote side closed the connection.
    ConnectionAborted,
    /// A read did not complete within the read timeout.
    TimedOut,
    /// The operation would block a non-blocking socket.
    WouldBlock,
    /// The operation was interrupted.
    Interrupted,
    /// An argument was not acceptable.
    InvalidInput,
    /// Any other failure.
    Other,
}

/// An input/output failure: its kind and a description.
#[derive(Debug, Clone)]
pub struct IoError {
    /// The kind of the failure.
    pub kind: IoErrorKind,
    /// What happened.
    pub message: String,
}

impl IoError {
    /// A failure of the given kind with the given description.
    pub fn new(kind: IoErrorKind, message: &str) -> (r: Self)
        ensures
            r.kind == kind,
            r.message@ == message@,
    {
        IoError { kind, message: String::from_str(message) }
    }

    /// The kind of the failure.
    pub fn kind(&self) -> (r: IoErrorKind)
        ensures
            r == self.kind,
    {
        self.kind
    }
}

/// The text contains a NUL byte, so it cannot be handed to the engine
/// as a C string.
pub open spec fn has_nul(text: Seq<char>) -> bool {
    encode_utf8(text).contains(0u8)
}

/// Whether the text contains a NUL byte.
pub fn contains_nul(text: &str) -> (r: bool)
    ensures
        r == has_nul(text@),
{
    let bytes = text.as_bytes();
    let n = bytes.len();
    let mut i: usize = 0;
    while i < n
        invariant
            n == bytes@.len(),
            bytes@ == text.spec_bytes(),
            i <= n,
            forall|j: int| 0 <= j < i ==> bytes@[j] != 0u8,
        decreases n - i,
    {
        if bytes[i] == 0u8 {
            assert(bytes@[i as int] == 0u8);
            return true;
        }
        i = i + 1;
    }
    assert(!bytes@.contains(0u8));
    false
}

/// The description of a failed isolate check when no isolate ID is
/// given.
pub open spec fn missing_id_message() -> Seq<char> {
    "The isolate doesn't have an ID."@
}

/// The description of a failed isolate check when the isolate given
/// is not the inspector's.
pub open spec fn other_isolate_message() -> Seq<char> {
    "The isolate passed doesn't match with the isolate used to create the inspector."@
}

/// The description of a refused protocol message.
pub open spec fn nul_message_error() -> Seq<char> {
    "The V8 Inspector Protocol message shouldn't contain nul symbols."@
}

/// The description of a refused breakpoint reason.
pub open spec fn nul_reason_error() -> Seq<char> {
    "The V8 Inspector Protocol breakpoint reason shouldn't contain nul symbols."@
}

/// What an isolate check answers for the given isolate ID: success
/// when it is the inspector's isolate, else the kind of refusal and
/// its description.
pub open spec fn isolate_check(own: IsolateId, id: Option<IsolateId>) -> Option<Seq<char>> {
    match id {
        None => Some(missing_id_message()),
        Some(i) => if i == own { None } else { Some(other_isolate_message()) },
    }
}

/// The debugging inspector attached to the context of one isolate.
#[derive(Debug)]
pub struct Inspector {
    /// The isolate the inspector was created for.
    pub isolate_id: IsolateId,
}

impl Inspector {
    /// An inspector created for the isolate with the given ID.
    pub fn new(isolate_id: IsolateId) -> (r: Self)
        ensures
            r.isolate_id == isolate_id,
    {
        Inspector { isolate_id }
    }

    /// The ID of the isolate the inspector was created for.
    pub fn get_isolate_id(&self) -> (r: Option<IsolateId>)
        ensures
            r == Some(self.isolate_id),
    {
        Some(self.isolate_id)
    }

    /// Checks that the isolate with the given ID is the one the
    /// inspector was created for. Refuses, as invalid input, a missing
    /// ID and the ID of any other isolate.
    pub fn check_isolate_id(&self, id: Option<IsolateId>) -> (r: Result<(), IoError>)
        ensures
            match isolate_check(self.isolate_id, id) {
                None => r is Ok,
                Some(m) => r matches Err(e) && e.kind == IoErrorKind::InvalidInput && e.message@ == m,
            },
    {
        match id {
            None => Err(IoError::new(IoErrorKind::InvalidInput, "The isolate doesn't have an ID.")),
            Some(i) => {
                if i.0 != self.isolate_id.0 {
                    Err(
                        IoError::new(
                            IoErrorKind::InvalidInput,
                            "The isolate passed doesn't match with the isolate used to create the inspector.",
                        ),
                    )
                } else {
                    Ok(())
                }
            },
        }
    }

    /// A guard for using the inspector from the isolate with the given
    /// ID; refused as [`Self::check_isolate_id`] refuses.
    pub fn guard<'a>(&'a self, isolate_id: Option<IsolateId>) -> (r: Result<InspectorGuard<'a>, IoError>)
        ensures
            match isolate_check(self.isolate_id, isolate_id) {
                None => r matches Ok(g) && g.inspector == self,
                Some(m) => r matches Err(e) && e.kind == IoErrorKind::InvalidInput && e.message@ == m,
            },
    {
        InspectorGuard::new(self, isolate_id)
    }
}

/// An inspector checked to be used from the isolate it was created
/// for.
#[derive(Debug)]
pub struct InspectorGuard<'a> {
    /// The inspector guarded.
    pub inspector: &'a Inspector,
}

impl<'a> InspectorGuard<'a> {
    /// Checks the isolate with the given ID against the inspector and,
    /// when it is the inspector's own, hands out the guard.
    pub fn new(inspector: &'a Inspector, isolate_id: Option<IsolateId>) -> (r: Result<Self, IoError>)
        ensures
            match isolate_check(inspector.isolate_id, isolate_id) {
                None => r matches Ok(g) && g.inspector == inspector,
                Some(m) => r matches Err(e) && e.kind == IoErrorKind::InvalidInput && e.message@ == m,
            },
    {
        match inspector.check_isolate_id(isolate_id) {
            Ok(()) => Ok(InspectorGuard { inspector }),
            Err(e) => Err(e),
        }
    }

    /// Checks a protocol message before it is dispatched to the engine's
    /// inspector: a message with a NUL byte is refused as invalid input.
    /// Nothing is passed on here: the engine is not part of this crate,
    /// and the caller hands an accepted message to it.
    pub fn dispatch_protocol_message(&self, message: &str) -> (r: Result<(), IoError>)
        ensures
            !has_nul(message@) ==> r is Ok,
            has_nul(message@) ==> (r matches Err(e) && e.kind == IoErrorKind::InvalidInput
                && e.message@ == nul_message_error()),
    {
        if contains_nul(message) {
            Err(
                IoError::new(
                    IoErrorKind::InvalidInput,
                    "The V8 Inspector Protocol message shouldn't contain nul symbols.",
                ),
            )
        } else {
            Ok(())
        }
    }

    /// Checks a request to pause on the next statement, with the given
    /// reason shown to the user: a reason with a NUL byte is refused as
    /// invalid input. Nothing is passed on here: the engine is not part
    /// of this crate, and the caller hands an accepted request to it.
    pub fn schedule_pause_on_next_statement(&self, reason: &str) -> (r: Result<(), IoError>)
        ensures
            !has_nul(reason@) ==> r is Ok,
            has_nul(reason@) ==> (r matches Err(e) && e.kind == IoErrorKind::InvalidInput
                && e.message@ == nul_reason_error()),
    {
        if contains_nul(reason) {
            Err(
                IoError::new(
                    IoErrorKind::InvalidInput,
                    "The V8 Inspector Protocol breakpoint reason shouldn't contain nul symbols.",
                ),
            )
        } else {
            Ok(())
        }
    }
}

/// An inspector answers, through its guard, exactly for the isolate it
/// was created for: the check succeeds for that isolate's ID and fails
/// for a missing ID and for the ID of any other isolate.
pub proof fn law_guard_only_for_own_isolate(own: IsolateId, other: IsolateId)
    ensures
        isolate_check(own, Some(own)) is None,
        isolate_check(own, None) is Some,
        other != own ==> isolate_check(own, Some(other)) is Some,
{
}

} // verus!
