//! The simple remote debugging session: it reads the
//! messages of a remote debugger from a WebSocket and hands them to an
//! inspector which, unlike [`crate::v8::inspector::InspectorGuard`],
//! silently drops a text it cannot pass to the engine.
//!
//! The reading and sending happen outside this module; the functions
//! here decide on what a read gave. The shared decisions are in
//! [`crate::v8::inspector::server`].
use vstd::prelude::*;

use crate::v8::inspector::messages::{client_ready_method, ClientMessage};
use crate::v8::inspector::server::{
    converted, message_into_text, payload_text, TransportError, WebSocketMessage,
};
use crate::v8::inspector::{contains_nul, has_nul, IoError, IoErrorKind};

verus! {

/// The text a read from the WebSocket gave, or the failure it is
/// reported as: any message gives its text (see
/// `tungstenite::Message::into_text`), a text that cannot be decoded
/// fails with the decoding error, and a failed read is reported as a
/// transport error is.
pub fn read_message_text(read: Result<WebSocketMessage, TransportError>) -> (r: Result<String, IoError>)
    ensures
        match read {
            Err(e) => r matches Err(x) && (x.kind, x.message@) == converted(e),
            Ok(WebSocketMessage::Text(t)) => r matches Ok(s) && s@ == t@,
            Ok(WebSocketMessage::Binary(d)) => decoded(d@, r),
            Ok(WebSocketMessage::Ping(d)) => decoded(d@, r),
            Ok(WebSocketMessage::Pong(d)) => decoded(d@, r),
            Ok(WebSocketMessage::Close(None)) => r matches Ok(s) && s@.len() == 0,
            Ok(WebSocketMessage::Close(Some(f))) => r matches Ok(s) && s@ == f.1@,
        },
{
    match read {
        Err(e) => Err(crate::v8::inspector::server::convert_error(e)),
        Ok(message) => match message_into_text(message) {
            Ok(text) => Ok(text),
            Err(description) => Err(IoError { kind: IoErrorKind::Other, message: description }),
        },
    }
}

/// The text decoded from a payload, or the decoding failure.
pub open spec fn decoded(payload: Seq<u8>, r: Result<String, IoError>) -> bool {
    payload_text(
        payload,
        match r {
            Ok(s) => Ok(s),
            Err(e) => Err(e.message),
        },
    ) && (r matches Err(e) ==> e.kind == IoErrorKind::Other)
}

/// Where the start of a simple session stands after a message of the
/// client.
#[derive(Debug, Copy, Clone, PartialEq, Eq, Structural)]
pub enum StartStep {
    /// The text is not a client message: read the next one.
    Skip,
    /// Hand the text to the inspector when `dispatch` (a text with a
    /// NUL byte is dropped) and read the next one.
    Forward {
        /// The text is handed to the inspector.
        dispatch: bool,
    },
    /// The client is ready: hand the text to the inspector when
    /// `dispatch`, pause on the next statement (see
    /// [`debugger_started_reason`]) and wait for the client.
    Start {
        /// The text is handed to the inspector.
        dispatch: bool,
    },
}

/// Decides what the start of a simple session does with a text read
/// from the client and the client message parsed from it, if any.
pub fn start_step(text: &str, parsed: Option<&ClientMessage>) -> (r: StartStep)
    ensures
        match parsed {
            None => r == StartStep::Skip,
            Some(m) => if m.method.name@ == client_ready_method() {
                r == (StartStep::Start { dispatch: !has_nul(text@) })
            } else {
                r == (StartStep::Forward { dispatch: !has_nul(text@) })
            },
        },
{
    match parsed {
        None => StartStep::Skip,
        Some(m) => {
            let dispatch = !contains_nul(text);
            if m.is_client_ready() {
                StartStep::Start { dispatch }
            } else {
                StartStep::Forward { dispatch }
            }
        },
    }
}

/// The reason shown for the pause a simple session sets when the
/// client is ready.
pub fn debugger_started_reason() -> (r: &'static str)
    ensures
        r@ == "Debugger started."@,
{
    "Debugger started."
}

} // verus!
