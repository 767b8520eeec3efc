# v8_rs

The logic of bindings to the V8 JavaScript engine, checked by Verus.
No engine is linked: the engine's C interface is not part of this
crate, so nothing here compiles or runs JavaScript. What the engine
would hold is kept as plain values, and the bindings' rules are proved
over them.

- `src/` is the verified library. What the engine holds (the kinds it
  reports for a value, the elements of an array, the private data slots
  of a context, the arguments of a native call) is kept as plain values,
  so that the bindings' rules are proved over them: the classification of
  values, the conversions and their error messages, the binding of call
  arguments to typed parameters, the private data slots and their
  reserved internal slots, a structure built from one object argument,
  and the inspector's protocol messages and the decisions of a remote
  debugging session.
- `src/v8/inspector/` holds the inspector protocol: the messages
  (`messages`), the isolate check and the NUL checks of the inspector
  (`mod.rs`), and the session's decisions (`server`). `src/inspector.rs`
  holds the decisions of the simple session, whose inspector drops a text it cannot pass on.
- `app/` holds the input/output: the WebSocket server and session loops
  over `tungstenite`, and the JSON forms of the protocol messages
  (`serde`), converted to and from the library's types.
- `tests/` exercises the library on concrete values.
