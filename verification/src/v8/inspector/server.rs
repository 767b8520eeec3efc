//! The decisions of a remote debugging session over a WebSocket.
//!
//! The session reads the messages of a remote debugger (the client),
//! hands them to the inspector and sends the inspector's answers back.
//! The reading and sending themselves happen outside this module: each
//! function here takes what a read or a send gave and says what the
//! session does next.
use vstd::prelude::*;
use vstd::utf8::{decode_utf8, valid_utf8};

use super::messages::ClientMessage;
use super::{has_nul, InspectorGuard, IoError, IoErrorKind, nul_message_error};

verus! {

/// The read timeout of a session's WebSocket, in milliseconds, unless
/// it is set otherwise.
pub const DEFAULT_READ_TIMEOUT_MILLIS: u64 = 100;

/// What the inspector's wait callback returns to be called again.
pub const CONTINUE_WAITING: i32 = 0;

/// What the inspector's wait callback returns to stop waiting.
pub const STOP_WAITING: i32 = 1;

/// A message read from a WebSocket.
#[derive(Debug)]
pub enum WebSocketMessage {
    /// A text message.
    Text(String),
    /// A binary message.
    Binary(Vec<u8>),
    /// A ping with its payload.
    Ping(Vec<u8>),
    /// A pong with its payload.
    Pong(Vec<u8>),
    /// A close message, with the close code and reason when given.
    Close(Option<(u16, String)>),
}

/// Why a read from or a send to a WebSocket failed.
#[derive(Debug)]
pub enum TransportError {
    /// The underlying connection failed.
    Io(IoError),
    /// The connection was closed normally.
    ConnectionClosed,
    /// The connection had already been closed.
    AlreadyClosed,
    /// Any other failure, by its description.
    Other(String),
}

/// The description of a closed connection.
pub open spec fn closed_message() -> Seq<char> {
    "The WebSocket connection has been closed."@
}

/// The description of a message that is not valid UTF-8.
pub open spec fn utf8_error_message() -> Seq<char> {
    "UTF-8 encoding error"@
}

/// The description of a connection that cannot be read.
pub open spec fn aborted_message() -> Seq<char> {
    "The connection is aborted."@
}

/// The description of a lock that a panic left poisoned.
pub open spec fn poisoned_message() -> Seq<char> {
    "The mutex is poisoned."@
}

/// The kind and description of the failure a transport error is
/// reported as.
pub open spec fn converted(e: TransportError) -> (IoErrorKind, Seq<char>) {
    match e {
        TransportError::Io(io) => (io.kind, io.message@),
        TransportError::ConnectionClosed => (IoErrorKind::ConnectionAborted, closed_message()),
        TransportError::AlreadyClosed => (IoErrorKind::ConnectionAborted, closed_message()),
        TransportError::Other(t) => (IoErrorKind::Other, t@),
    }
}

/// The failure ends a debugging session's main loop cleanly: the
/// client went away.
pub open spec fn ends_session(kind: IoErrorKind) -> bool {
    kind == IoErrorKind::ConnectionAborted
}

/// The failure of a closed connection.
pub fn closed_error() -> (r: IoError)
    ensures
        r.kind == IoErrorKind::ConnectionAborted,
        r.message@ == closed_message(),
{
    IoError::new(IoErrorKind::ConnectionAborted, "The WebSocket connection has been closed.")
}

/// The failure of a lock that a panic left poisoned.
pub fn poisoned_error() -> (r: IoError)
    ensures
        r.kind == IoErrorKind::Other,
        r.message@ == poisoned_message(),
{
    IoError::new(IoErrorKind::Other, "The mutex is poisoned.")
}

/// Reports a transport error as an input/output failure: a failure of
/// the connection as it is, a closed connection as aborted, and any
/// other error by its description.
pub fn convert_error(e: TransportError) -> (r: IoError)
    ensures
        (r.kind, r.message@) == converted(e),
{
    match e {
        TransportError::Io(io) => io,
        TransportError::ConnectionClosed => closed_error(),
        TransportError::AlreadyClosed => closed_error(),
        TransportError::Other(t) => IoError { kind: IoErrorKind::Other, message: t },
    }
}

/// The text of a message, by `tungstenite::Message::into_text`: a text
/// message is its own text; the payload of a binary message, a ping
/// or a pong is decoded as UTF-8 (refused with the crate's UTF-8 error
/// when it is not valid); a close message gives its reason, or nothing
/// when it has none. An error is given by its description.
#[verifier::external_body]
pub(crate) fn message_into_text(message: WebSocketMessage) -> (r: Result<String, String>)
    ensures
        match message {
            WebSocketMessage::Text(t) => r matches Ok(s) && s@ == t@,
            WebSocketMessage::Binary(d) => payload_text(d@, r),
            WebSocketMessage::Ping(d) => payload_text(d@, r),
            WebSocketMessage::Pong(d) => payload_text(d@, r),
            WebSocketMessage::Close(None) => r matches Ok(s) && s@.len() == 0,
            WebSocketMessage::Close(Some(f)) => r matches Ok(s) && s@ == f.1@,
        },
{
    let message = match message {
        WebSocketMessage::Text(t) => tungstenite::Message::Text(t),
        WebSocketMessage::Binary(d) => tungstenite::Message::Binary(d),
        WebSocketMessage::Ping(d) => tungstenite::Message::Ping(d),
        WebSocketMessage::Pong(d) => tungstenite::Message::Pong(d),
        WebSocketMessage::Close(None) => tungstenite::Message::Close(None),
        WebSocketMessage::Close(Some((code, reason))) => tungstenite::Message::Close(
            Some(tungstenite::protocol::CloseFrame { code: code.into(), reason: reason.into() }),
        ),
    };
    match message.into_text() {
        Ok(text) => Ok(text),
        Err(e) => Err(e.to_string()),
    }
}

/// The text decoded from a payload, or the UTF-8 error when the
/// payload is not valid UTF-8.
pub open spec fn payload_text(payload: Seq<u8>, r: Result<String, String>) -> bool {
    if valid_utf8(payload) {
        r matches Ok(s) && s@ == decode_utf8(payload)
    } else {
        r matches Err(e) && e@ == utf8_error_message()
    }
}

/// The text of a message, or the failure it is reported as.
pub open spec fn text_read(payload: Seq<u8>, r: Result<Option<String>, IoError>) -> bool {
    if valid_utf8(payload) {
        r matches Ok(Some(s)) && s@ == decode_utf8(payload)
    } else {
        r matches Err(e) && e.kind == IoErrorKind::Other && e.message@ == utf8_error_message()
    }
}

/// What a session does with the outcome of a read from its WebSocket.
#[derive(Debug)]
pub enum MessageStep {
    /// Answer a ping with a pong carrying this payload, then report
    /// what the send gave (see [`pong_sent`]).
    SendPong(Vec<u8>),
    /// The read is over: the text read, nothing, or the failure.
    Done(Result<Option<String>, IoError>),
}

/// Decides what a read from the WebSocket gives. A close message ends
/// the connection (reported as aborted); a ping is answered with a
/// pong carrying the same payload; any other message gives its text.
/// A failed read is reported as [`convert_error`] reports it.
pub fn process_message(message: Result<WebSocketMessage, TransportError>) -> (r: MessageStep)
    ensures
        match message {
            Err(e) => r matches MessageStep::Done(Err(x)) && (x.kind, x.message@) == converted(e),
            Ok(WebSocketMessage::Close(_)) => r matches MessageStep::Done(Err(x)) && x.kind
                == IoErrorKind::ConnectionAborted && x.message@ == closed_message(),
            Ok(WebSocketMessage::Ping(p)) => r matches MessageStep::SendPong(q) && q@ == p@,
            Ok(WebSocketMessage::Text(t)) => r matches MessageStep::Done(Ok(Some(s))) && s@ == t@,
            Ok(WebSocketMessage::Binary(d)) => r matches MessageStep::Done(x) && text_read(d@, x),
            Ok(WebSocketMessage::Pong(d)) => r matches MessageStep::Done(x) && text_read(d@, x),
        },
{
    match message {
        Err(e) => MessageStep::Done(Err(convert_error(e))),
        Ok(WebSocketMessage::Close(_)) => MessageStep::Done(Err(closed_error())),
        Ok(WebSocketMessage::Ping(payload)) => MessageStep::SendPong(payload),
        Ok(other) => match message_into_text(other) {
            Ok(text) => MessageStep::Done(Ok(Some(text))),
            Err(description) => MessageStep::Done(Err(IoError { kind: IoErrorKind::Other, message: description })),
        },
    }
}

/// What a read gives after a ping was answered: nothing when the pong
/// was sent, else the failure of the send.
pub fn pong_sent(sent: Result<(), TransportError>) -> (r: Result<Option<String>, IoError>)
    ensures
        match sent {
            Ok(()) => r matches Ok(None),
            Err(e) => r matches Err(x) && (x.kind, x.message@) == converted(e),
        },
{
    match sent {
        Ok(()) => Ok(None),
        Err(e) => Err(convert_error(e)),
    }
}

/// Whether a session looks for data to read.
#[derive(Debug)]
pub enum DataCheck {
    /// Peek at the connection for a byte.
    Peek,
    /// Fail without reading.
    Fail(IoError),
}

/// A connection is looked at only when it can be read and has a peer;
/// else the check fails as an aborted connection.
pub fn data_check(readable: bool) -> (r: DataCheck)
    ensures
        readable ==> r is Peek,
        !readable ==> (r matches DataCheck::Fail(e) && e.kind == IoErrorKind::Other && e.message@
            == aborted_message()),
{
    if readable {
        DataCheck::Peek
    } else {
        DataCheck::Fail(IoError::new(IoErrorKind::Other, "The connection is aborted."))
    }
}

/// There is data to read when a peek found one byte.
pub fn peeked(peek: Result<usize, IoError>) -> (r: Result<bool, IoError>)
    ensures
        match peek {
            Ok(n) => r == Ok::<bool, IoError>(n == 1),
            Err(e) => r matches Err(x) && x == e,
        },
{
    match peek {
        Ok(n) => Ok(n == 1),
        Err(e) => Err(e),
    }
}

/// What a session does after trying to read the next message.
#[derive(Debug)]
pub enum ReadAction {
    /// Hand the message back (setting the default read timeout when
    /// none is set).
    Deliver(String),
    /// Read again: the read timed out.
    ReadAgain,
    /// Remove the read timeout and read again: the read would block.
    ReadBlocking,
    /// Give up with this failure.
    Fail(IoError),
}

/// Decides how a session goes on after trying to read the next
/// message: a message read is handed back; a read that timed out is
/// repeated; a read that would block is repeated without a timeout;
/// any other failure is final.
pub fn read_action(read: Result<String, IoError>) -> (r: ReadAction)
    ensures
        match read {
            Ok(s) => r matches ReadAction::Deliver(t) && t@ == s@,
            Err(e) => if e.kind == IoErrorKind::TimedOut {
                r is ReadAgain
            } else if e.kind == IoErrorKind::WouldBlock {
                r is ReadBlocking
            } else {
                r matches ReadAction::Fail(x) && x == e
            },
        },
{
    match read {
        Ok(s) => ReadAction::Deliver(s),
        Err(e) => {
            if e.kind == IoErrorKind::TimedOut {
                ReadAction::ReadAgain
            } else if e.kind == IoErrorKind::WouldBlock {
                ReadAction::ReadBlocking
            } else {
                ReadAction::Fail(e)
            }
        },
    }
}

/// What the inspector's wait callback does after a read, while the
/// inspector waits for a message of the client.
#[derive(Debug)]
pub enum WaitStep {
    /// Dispatch the message to the inspector and stop waiting
    /// (return [`STOP_WAITING`]).
    Dispatch(String),
    /// Read again.
    ReadAgain,
    /// Return this to the inspector.
    Finish(i32),
}

/// Decides the wait callback's next step: a message is dispatched
/// unless it holds a NUL byte, in which case the next one is read; a
/// closed connection makes the callback return [`CONTINUE_WAITING`];
/// after any other failure it reads again.
pub fn wait_step(read: Result<String, IoError>) -> (r: WaitStep)
    ensures
        match read {
            Ok(m) => if has_nul(m@) {
                r is ReadAgain
            } else {
                r matches WaitStep::Dispatch(t) && t@ == m@
            },
            Err(e) => if ends_session(e.kind) {
                r == WaitStep::Finish(CONTINUE_WAITING)
            } else {
                r is ReadAgain
            },
        },
{
    match read {
        Ok(m) => {
            if super::contains_nul(m.as_str()) {
                WaitStep::ReadAgain
            } else {
                WaitStep::Dispatch(m)
            }
        },
        Err(e) => {
            if e.kind == IoErrorKind::ConnectionAborted {
                WaitStep::Finish(CONTINUE_WAITING)
            } else {
                WaitStep::ReadAgain
            }
        },
    }
}

/// Where the start of a debugging session stands after a message of
/// the client.
#[derive(Debug, Copy, Clone, PartialEq, Eq, Structural)]
pub enum HandshakeStep {
    /// The message was not a client message: read the next one.
    Skip,
    /// The message was dispatched: read the next one.
    Continue,
    /// The message was dispatched and the client is ready: the session
    /// has started.
    Started,
}

/// Handles a message of the client while a session starts: a text that
/// is not a client message is skipped; any other is dispatched to the
/// inspector (refused when it holds a NUL byte), and the session has
/// started once the client says it is ready.
pub fn handshake_step(guard: &InspectorGuard, text: &str, parsed: Option<&ClientMessage>) -> (r: Result<
    HandshakeStep,
    IoError,
>)
    ensures
        match parsed {
            None => r == Ok::<HandshakeStep, IoError>(HandshakeStep::Skip),
            Some(m) => if has_nul(text@) {
                r matches Err(e) && e.kind == IoErrorKind::InvalidInput && e.message@
                    == nul_message_error()
            } else if m.method.name@ == super::messages::client_ready_method() {
                r == Ok::<HandshakeStep, IoError>(HandshakeStep::Started)
            } else {
                r == Ok::<HandshakeStep, IoError>(HandshakeStep::Continue)
            },
        },
{
    match parsed {
        None => Ok(HandshakeStep::Skip),
        Some(m) => {
            match guard.dispatch_protocol_message(text) {
                Err(e) => Err(e),
                Ok(()) => {
                    if m.is_client_ready() {
                        Ok(HandshakeStep::Started)
                    } else {
                        Ok(HandshakeStep::Continue)
                    }
                },
            }
        },
    }
}

/// How a session's main loop ends after a failure: cleanly when the
/// client closed the connection, else with the failure.
pub fn main_loop_end(e: IoError) -> (r: Result<(), IoError>)
    ensures
        ends_session(e.kind) ==> r is Ok,
        !ends_session(e.kind) ==> (r matches Err(x) && x == e),
{
    if e.kind == IoErrorKind::ConnectionAborted {
        Ok(())
    } else {
        Err(e)
    }
}

/// What one round of reading with a timeout reports: whether the
/// client has gone away. A closed connection says so; a read that
/// timed out, would block or was interrupted is no failure; any other
/// failure is reported.
pub fn timed_read_outcome(read: Result<Option<String>, IoError>) -> (r: Result<bool, IoError>)
    ensures
        match read {
            Ok(_) => r == Ok::<bool, IoError>(false),
            Err(e) => if ends_session(e.kind) {
                r == Ok::<bool, IoError>(true)
            } else if e.kind == IoErrorKind::WouldBlock || e.kind == IoErrorKind::TimedOut
                || e.kind == IoErrorKind::Interrupted {
                r == Ok::<bool, IoError>(false)
            } else {
                r matches Err(x) && x == e
            },
        },
{
    match read {
        Ok(_) => Ok(false),
        Err(e) => {
            if e.kind == IoErrorKind::ConnectionAborted {
                Ok(true)
            } else if e.kind == IoErrorKind::WouldBlock || e.kind == IoErrorKind::TimedOut
                || e.kind == IoErrorKind::Interrupted {
                Ok(false)
            } else {
                Err(e)
            }
        },
    }
}

/// A client that closes the connection, by a close message or by
/// closing the socket, ends a debugging session cleanly: the failure it
/// is reported as ends the main loop, and no other failure does.
pub proof fn law_close_ends_session(e: TransportError, kind: IoErrorKind)
    ensures
        ends_session(IoErrorKind::ConnectionAborted),
        (e is ConnectionClosed || e is AlreadyClosed) ==> ends_session(converted(e).0),
        e is Other ==> !ends_session(converted(e).0),
        kind != IoErrorKind::ConnectionAborted ==> !ends_session(kind),
{
}

/// The launch configuration of Visual Studio Code that attaches to a
/// debugging server at the given address.
pub open spec fn vscode_configuration_text(address: Seq<char>) -> Seq<char> {
    "\n        {\n            \"version\": \"0.2.0\",\n            \"configurations\": [\n                {\n                    \"name\": \"Attach to RedisGears V8 through WebSocket at "@ + address
        + "\",\n                    \"type\": \"node\",\n                    \"request\": \"attach\",\n                    \"cwd\": \"${workspaceFolder}\",\n                    \"websocketAddress\": \"ws://"@ + address
        + "\",\n                }\n            ]\n        }\n        "@
}

/// The link that opens the Chromium developer tools on a debugging
/// server at the given address.
pub open spec fn chromium_link_text(address: Seq<char>) -> Seq<char> {
    "devtools://devtools/bundled/inspector.html?experiments=true&v8only=true&ws="@ + address
}

/// The notice telling how to connect to a debugging server at the
/// given address.
pub open spec fn hints_text(address: Seq<char>) -> Seq<char> {
    "The V8 remote debugging server is waiting for a connection via WebSocket on: "@ + address + ".\nHint: you may browse this link: "@
        + chromium_link_text(address) + " or use this launch configuration for Visual Studio Code (<https://code.visualstudio.com/>):"@
        + vscode_configuration_text(address)
}

/// The ways to connect a remote debugger to a debugging server.
#[derive(Debug, Clone)]
pub struct DebuggerSessionConnectionHints {
    /// The address the server listens on.
    pub address: String,
    /// A launch configuration of Visual Studio Code attaching to the
    /// server.
    pub vscode_configuration: String,
    /// A link opening the Chromium developer tools on the server.
    pub chromium_link: String,
}

impl DebuggerSessionConnectionHints {
    /// The hints for a server listening on the given address.
    pub fn from_address(address: &str) -> (r: Self)
        ensures
            r.address@ == address@,
            r.vscode_configuration@ == vscode_configuration_text(address@),
            r.chromium_link@ == chromium_link_text(address@),
    {
        let mut vscode_configuration = String::from_str("\n        {\n            \"version\": \"0.2.0\",\n            \"configurations\": [\n                {\n                    \"name\": \"Attach to RedisGears V8 through WebSocket at ");
        vscode_configuration.append(address);
        vscode_configuration.append("\",\n                    \"type\": \"node\",\n                    \"request\": \"attach\",\n                    \"cwd\": \"${workspaceFolder}\",\n                    \"websocketAddress\": \"ws://");
        vscode_configuration.append(address);
        vscode_configuration.append("\",\n                }\n            ]\n        }\n        ");
        let mut chromium_link = String::from_str("devtools://devtools/bundled/inspector.html?experiments=true&v8only=true&ws=");
        chromium_link.append(address);
        DebuggerSessionConnectionHints {
            address: String::from_str(address),
            vscode_configuration,
            chromium_link,
        }
    }

    /// The address the server listens on.
    pub fn get_address(&self) -> (r: &str)
        ensures
            r@ == self.address@,
    {
        self.address.as_str()
    }

    /// How to connect with Visual Studio Code.
    pub fn get_visual_studio_code_configuration(&self) -> (r: &str)
        ensures
            r@ == self.vscode_configuration@,
    {
        self.vscode_configuration.as_str()
    }

    /// How to connect with a Chromium-based browser.
    pub fn get_chromium_link(&self) -> (r: &str)
        ensures
            r@ == self.chromium_link@,
    {
        self.chromium_link.as_str()
    }

    /// The notice telling where the server waits and how to connect
    /// to it.
    pub fn to_string(&self) -> (r: String)
        ensures
            r@ == notice(*self),
    {
        let mut s = String::from_str("The V8 remote debugging server is waiting for a connection via WebSocket on: ");
        s.append(self.address.as_str());
        s.append(".\nHint: you may browse this link: ");
        s.append(self.chromium_link.as_str());
        s.append(" or use this launch configuration for Visual Studio Code (<https://code.visualstudio.com/>):");
        s.append(self.vscode_configuration.as_str());
        s
    }
}

/// The notice a set of hints gives: where the server waits, then
/// both ways to connect to it.
pub open spec fn notice(hints: DebuggerSessionConnectionHints) -> Seq<char> {
    "The V8 remote debugging server is waiting for a connection via WebSocket on: "@ + hints.address@ + ".\nHint: you may browse this link: "@ + hints.chromium_link@
        + " or use this launch configuration for Visual Studio Code (<https://code.visualstudio.com/>):"@ + hints.vscode_configuration@
}

/// The notice of the hints made for an address is the notice for that
/// address: it names the address, the Chromium link and the Visual
/// Studio Code configuration for it.
pub proof fn law_hints_notice(hints: DebuggerSessionConnectionHints, address: Seq<char>)
    requires
        hints.address@ == address,
        hints.vscode_configuration@ == vscode_configuration_text(address),
        hints.chromium_link@ == chromium_link_text(address),
    ensures
        notice(hints) == hints_text(address),
{
}

} // verus!
