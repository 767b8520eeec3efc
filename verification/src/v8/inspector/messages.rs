//! The messages the inspector exchanges with a remote debugger: the
//! requests of the debugger (the client) and the answers, errors and
//! events of the inspector (the server), after the V8 Inspector
//! Protocol.
//!
//! The parameters of a message are JSON values; they are kept here as
//! [`JsonValue`]s, numbers by their JSON text.
use vstd::prelude::*;

use crate::v8::argument_binding::{decimal, decimal_string};

verus! {

/// The error subset of the dispatch codes of the inspector protocol.
#[derive(Debug, Copy, Clone, PartialEq, Eq, Structural)]
pub enum ErrorCode {
    /// A message could not be parsed (malformed JSON, for example).
    Parse,
    /// A request lacks a required top-level property (`id`,
    /// `method`), has one of the wrong type, or has an unknown one.
    InvalidRequest,
    /// A protocol method is not known to the dispatcher.
    MethodNotFound,
    /// The parameters sent to a domain handler are invalid.
    InvalidParameters,
    /// An application level error, within a protocol agent.
    Internal,
    /// An application level error, within a protocol agent.
    Server,
    /// No session has the ID given in the message (it may have been
    /// detached already).
    SessionNotFound,
}

/// The number of an error code in the protocol.
pub open spec fn error_code_number(code: ErrorCode) -> i32 {
    match code {
        ErrorCode::Parse => -32700i32,
        ErrorCode::InvalidRequest => -32600i32,
        ErrorCode::MethodNotFound => -32601i32,
        ErrorCode::InvalidParameters => -32602i32,
        ErrorCode::Internal => -32603i32,
        ErrorCode::Server => -32000i32,
        ErrorCode::SessionNotFound => -32001i32,
    }
}

impl ErrorCode {
    /// The number of the error code in the protocol.
    pub fn code(self) -> (r: i32)
        ensures
            r == error_code_number(self),
    {
        match self {
            ErrorCode::Parse => -32700i32,
            ErrorCode::InvalidRequest => -32600i32,
            ErrorCode::MethodNotFound => -32601i32,
            ErrorCode::InvalidParameters => -32602i32,
            ErrorCode::Internal => -32603i32,
            ErrorCode::Server => -32000i32,
            ErrorCode::SessionNotFound => -32001i32,
        }
    }
}

impl From<ErrorCode> for i32 {
    fn from(value: ErrorCode) -> (r: Self)
        ensures
            r == error_code_number(value),
    {
        value.code()
    }
}

impl vstd::std_specs::convert::FromSpecImpl<ErrorCode> for i32 {
    open spec fn obeys_from_spec() -> bool {
        true
    }

    open spec fn from_spec(v: ErrorCode) -> i32 {
        error_code_number(v)
    }
}

/// Distinct error codes have distinct numbers, all of them negative.
pub proof fn law_error_codes_distinct(a: ErrorCode, b: ErrorCode)
    ensures
        a != b ==> error_code_number(a) != error_code_number(b),
        error_code_number(a) < 0,
{
}

/// A JSON value. A number is kept by its JSON text (such as `3` or
/// `-1.5e3`).
#[derive(Debug)]
pub enum JsonValue {
    /// `null`.
    Null,
    /// `true` or `false`.
    Bool(bool),
    /// A number, by its JSON text.
    Number(String),
    /// A string.
    Text(String),
    /// An array.
    Array(Vec<JsonValue>),
    /// An object: its members, each name once.
    Object(Vec<(String, JsonValue)>),
}

/// The names of a list of members, in order.
pub open spec fn member_names(members: Seq<(String, JsonValue)>) -> Seq<Seq<char>> {
    members.map_values(|m: (String, JsonValue)| m.0@)
}

/// No name occurs twice among the members (as in a JSON object).
pub open spec fn unique_names(members: Seq<(String, JsonValue)>) -> bool {
    forall|i: int, j: int| 0 <= i < j < members.len() ==> #[trigger] members[i].0@ != #[trigger] members[j].0@
}

/// A JSON value is well formed: no member name occurs twice in any of
/// its objects, however deep.
pub open spec fn json_wf(v: &JsonValue) -> bool
    decreases v,
{
    match v {
        JsonValue::Array(a) => forall|i: int|
            0 <= i < a@.len() ==> {
                proof {
                    assert(decreases_to!(v => a@[i]));
                }
                #[trigger] json_wf(&a@[i])
            },
        JsonValue::Object(m) => unique_names(m@) && forall|i: int|
            0 <= i < m@.len() ==> {
                proof {
                    assert(decreases_to!(v => m@[i].1));
                }
                #[trigger] json_wf(&m@[i].1)
            },
        _ => true,
    }
}

/// Members are well formed: no name occurs twice, and every value is
/// well formed (the invariant of a JSON object's members).
pub open spec fn members_wf(members: Seq<(String, JsonValue)>) -> bool {
    &&& unique_names(members)
    &&& forall|i: int| 0 <= i < members.len() ==> #[trigger] json_wf(&members[i].1)
}

/// The protocol's `Debugger.scriptParsed` event: fired when the engine
/// parses a script, and for every known script when the debugger is
/// enabled.
#[derive(Debug, Clone)]
pub struct ScriptParsed {
    /// The ID of the script within the current context.
    pub id: u64,
    /// The URL of the script; empty when it was parsed from a string.
    pub url: String,
    /// The line offset of the script within the resource.
    pub start_line: u64,
    /// The column offset of the script within the resource.
    pub start_column: u64,
    /// The last line of the script.
    pub end_line: u64,
    /// The length of the last line of the script.
    pub end_column: u64,
    /// The context the script was created in.
    pub execution_context_id: u64,
    /// The SHA-256 content hash of the script.
    pub hash: String,
    /// The script comes from a live edit.
    pub is_live_edit: bool,
    /// The source map URL (sometimes `base64`-encoded).
    pub source_map_url: String,
    /// The script has a single URL to its source.
    pub has_source_url: bool,
    /// The script is a module.
    pub is_module: bool,
    /// The length of the script, in bytes.
    pub length: u64,
    /// The language of the script.
    pub script_language: String,
    /// The name of the embedder.
    pub embedder_name: String,
}

/// A method invocation: the method's name and its parameters.
#[derive(Debug)]
pub struct MethodCallInformation {
    /// The name of the method.
    pub name: String,
    /// The parameters passed to the method, each name once.
    pub arguments: Vec<(String, JsonValue)>,
}

/// The name of the event of a parsed script.
pub open spec fn script_parsed_event() -> Seq<char> {
    "Debugger.scriptParsed"@
}

impl MethodCallInformation {
    /// The parameters are well formed: no name is passed twice.
    pub open spec fn wf(&self) -> bool {
        members_wf(self.arguments@)
    }

    /// An invocation of the method with the given name and no
    /// parameters.
    pub fn without_arguments(name: &str) -> (r: Self)
        ensures
            r.name@ == name@,
            r.arguments@.len() == 0,
            r.wf(),
    {
        MethodCallInformation { name: String::from_str(name), arguments: Vec::new() }
    }

    /// Whether a parameter named after the event of a parsed script
    /// is passed.
    pub fn is_script_parsed(&self) -> (r: bool)
        ensures
            r == member_names(self.arguments@).contains(script_parsed_event()),
    {
        let key = String::from_str("Debugger.scriptParsed");
        let n = self.arguments.len();
        let mut i: usize = 0;
        while i < n
            invariant
                n == self.arguments@.len(),
                key@ == script_parsed_event(),
                i <= n,
                forall|j: int| 0 <= j < i ==> self.arguments@[j].0@ != script_parsed_event(),
            decreases n - i,
        {
            if self.arguments[i].0.eq(&key) {
                assert(member_names(self.arguments@)[i as int] == script_parsed_event());
                return true;
            }
            i = i + 1;
        }
        assert forall|j: int| 0 <= j < member_names(self.arguments@).len() implies member_names(
            self.arguments@,
        )[j] != script_parsed_event() by {
            assert(self.arguments@[j].0@ != script_parsed_event());
        }
        false
    }
}

/// The method a client calls when it has connected and waits for the
/// debugging session to start.
pub open spec fn client_ready_method() -> Seq<char> {
    "Runtime.runIfWaitingForDebugger"@
}

/// The method that enables the debugger runtime; usually the first
/// message of a client.
pub open spec fn runtime_enable_method() -> Seq<char> {
    "Runtime.enable"@
}

/// The method that pauses the execution on the next statement.
pub open spec fn debugger_pause_method() -> Seq<char> {
    "Debugger.pause"@
}

/// The method that sets a breakpoint by URL.
pub open spec fn set_breakpoint_method() -> Seq<char> {
    "Debugger.setBreakpointByUrl"@
}

/// A message from the debugger front-end (the client) to the
/// inspector.
#[derive(Debug)]
pub struct ClientMessage {
    /// The sequential number of the message: each message has a
    /// higher number than the one before it.
    pub id: u64,
    /// The method called.
    pub method: MethodCallInformation,
}

impl ClientMessage {
    /// The message is well formed: its method's parameters are.
    pub open spec fn wf(&self) -> bool {
        self.method.wf()
    }

    /// A message, numbered `id`, saying that the client is ready for
    /// the debugging session to start.
    pub fn new_client_ready(id: u64) -> (r: Self)
        ensures
            r.id == id,
            r.method.name@ == client_ready_method(),
            r.method.arguments@.len() == 0,
            r.method.wf(),
    {
        ClientMessage { id, method: MethodCallInformation::without_arguments("Runtime.runIfWaitingForDebugger") }
    }

    /// A message, numbered `id`, enabling the debugger runtime.
    pub fn new_runtime_enable(id: u64) -> (r: Self)
        ensures
            r.id == id,
            r.method.name@ == runtime_enable_method(),
            r.method.arguments@.len() == 0,
            r.method.wf(),
    {
        ClientMessage { id, method: MethodCallInformation::without_arguments("Runtime.enable") }
    }

    /// A message, numbered `id`, setting a breakpoint at the given
    /// column and line of the scripts whose URL matches `url`.
    pub fn new_breakpoint(id: u64, column: u64, line: u64, url: &str) -> (r: Self)
        ensures
            r.id == id,
            r.method.name@ == set_breakpoint_method(),
            r.method.arguments@.len() == 3,
            r.method.wf(),
            r.method.arguments@[0].0@ == "columnNumber"@,
            r.method.arguments@[0].1 matches JsonValue::Number(t) && t@ == decimal(column as nat),
            r.method.arguments@[1].0@ == "lineNumber"@,
            r.method.arguments@[1].1 matches JsonValue::Number(t) && t@ == decimal(line as nat),
            r.method.arguments@[2].0@ == "urlRegex"@,
            r.method.arguments@[2].1 matches JsonValue::Text(t) && t@ == url@,
    {
        let mut arguments: Vec<(String, JsonValue)> = Vec::new();
        arguments.push((String::from_str("columnNumber"), JsonValue::Number(decimal_string(column))));
        arguments.push((String::from_str("lineNumber"), JsonValue::Number(decimal_string(line))));
        arguments.push((String::from_str("urlRegex"), JsonValue::Text(String::from_str(url))));
        proof {
            reveal_strlit("columnNumber");
            reveal_strlit("lineNumber");
            reveal_strlit("urlRegex");
            let m = arguments@;
            assert(m[0].0@.len() != m[1].0@.len() && m[0].0@.len() != m[2].0@.len() && m[1].0@.len() != m[2].0@.len());
            assert(unique_names(m));
            assert(json_wf(&m[0].1) && json_wf(&m[1].1) && json_wf(&m[2].1));
        }
        ClientMessage {
            id,
            method: MethodCallInformation { name: String::from_str("Debugger.setBreakpointByUrl"), arguments },
        }
    }

    /// Whether the message says that the client is ready for the
    /// debugging session to start.
    pub fn is_client_ready(&self) -> (r: bool)
        ensures
            r == (self.method.name@ == client_ready_method()),
    {
        let ready = String::from_str("Runtime.runIfWaitingForDebugger");
        self.method.name.eq(&ready)
    }

    /// Whether the message asks to pause the JavaScript execution.
    pub fn is_debugger_pause(&self) -> (r: bool)
        ensures
            r == (self.method.name@ == debugger_pause_method()),
    {
        let pause = String::from_str("Debugger.pause");
        self.method.name.eq(&pause)
    }
}

/// A message made to say that the client is ready is recognised as
/// such, and one that enables the runtime or sets a breakpoint is not;
/// none of them asks for a pause.
pub proof fn law_client_ready_recognised(ready: ClientMessage, enable: ClientMessage, breakpoint: ClientMessage)
    requires
        ready.method.name@ == client_ready_method(),
        enable.method.name@ == runtime_enable_method(),
        breakpoint.method.name@ == set_breakpoint_method(),
    ensures
        enable.method.name@ != client_ready_method(),
        breakpoint.method.name@ != client_ready_method(),
        ready.method.name@ != debugger_pause_method(),
        enable.method.name@ != debugger_pause_method(),
        breakpoint.method.name@ != debugger_pause_method(),
{
    reveal_strlit("Runtime.runIfWaitingForDebugger");
    reveal_strlit("Runtime.enable");
    reveal_strlit("Debugger.setBreakpointByUrl");
    reveal_strlit("Debugger.pause");
    assert(client_ready_method()[8] != runtime_enable_method()[8]);
    assert(client_ready_method().len() != set_breakpoint_method().len());
    assert(client_ready_method().len() != debugger_pause_method().len());
    assert(runtime_enable_method()[0] != debugger_pause_method()[0]);
    assert(set_breakpoint_method().len() != debugger_pause_method().len());
}

/// An error reported by the inspector.
#[derive(Debug, Clone)]
pub struct ErrorMessage {
    /// The error code.
    pub code: i32,
    /// The description of the error.
    pub message: String,
}

/// A message from the inspector (the back-end) to the client (the
/// front-end).
#[derive(Debug)]
pub enum ServerMessage {
    /// An error on the inspector's side.
    Error {
        /// The error.
        error: ErrorMessage,
    },
    /// A method the inspector invokes on the client (an event).
    Invoke(MethodCallInformation),
    /// The answer to an earlier message of the client.
    Result {
        /// The ID of the message answered.
        id: u64,
        /// The result of processing that message.
        result: Vec<(String, JsonValue)>,
    },
}

impl ServerMessage {
    /// The message is well formed: the members of its invocation's
    /// parameters or of its result each have a name of their own.
    pub open spec fn wf(&self) -> bool {
        match self {
            ServerMessage::Error { .. } => true,
            ServerMessage::Invoke(i) => i.wf(),
            ServerMessage::Result { result, .. } => members_wf(result@),
        }
    }
}

/// The error a server message carries, if it is an error.
pub open spec fn error_of(message: ServerMessage) -> Option<ErrorMessage> {
    match message {
        ServerMessage::Error { error } => Some(error),
        _ => None,
    }
}

/// The invocation a server message carries, if it is one.
pub open spec fn invocation_of(message: ServerMessage) -> Option<MethodCallInformation> {
    match message {
        ServerMessage::Invoke(invocation) => Some(invocation),
        _ => None,
    }
}

impl ServerMessage {
    /// The error, when the message is an error.
    pub fn get_error(&self) -> (r: Option<&ErrorMessage>)
        ensures
            match error_of(*self) {
                Some(e) => r == Some(&e),
                None => r is None,
            },
    {
        match self {
            ServerMessage::Error { error } => Some(error),
            _ => None,
        }
    }

    /// The invocation, when the message is an invocation.
    pub fn get_invocation(&self) -> (r: Option<&MethodCallInformation>)
        ensures
            match invocation_of(*self) {
                Some(i) => r == Some(&i),
                None => r is None,
            },
    {
        match self {
            ServerMessage::Invoke(invocation) => Some(invocation),
            _ => None,
        }
    }
}

impl From<ErrorMessage> for ServerMessage {
    fn from(error: ErrorMessage) -> (r: Self)
        ensures
            r == (ServerMessage::Error { error }),
            r.wf(),
    {
        ServerMessage::Error { error }
    }
}

impl vstd::std_specs::convert::FromSpecImpl<ErrorMessage> for ServerMessage {
    open spec fn obeys_from_spec() -> bool {
        true
    }

    open spec fn from_spec(v: ErrorMessage) -> ServerMessage {
        ServerMessage::Error { error: v }
    }
}

/// An error turned into a server message is read back unchanged as
/// its error, and such a message carries no invocation.
pub proof fn law_error_message_round_trip(error: ErrorMessage)
    ensures
        error_of(ServerMessage::Error { error }) == Some(error),
        invocation_of(ServerMessage::Error { error }) is None,
{
}

} // verus!
