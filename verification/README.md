# wapc

A waPC host library whose logic is verified with Verus.

waPC is a small RPC protocol between a WebAssembly guest and its host: the
host starts a call with `__guest_call`, the guest fetches the request with
`__guest_request`, may call back into the host with `__host_call`, and ends
by leaving a response (`__guest_response`) or an error (`__guest_error`).

## Layout

- `src/state.rs` – the conversation state of a module (`ModuleState`), the
  protocol's function names, invocations, WASI parameters and the source of
  module ids.
- `src/host.rs` – `WapcHost`, which drives a guest call through an engine
  (`WebAssemblyEngineProvider`), and how a call's result is decided.
- `src/memory.rs` – the host functions a guest imports, over the guest's
  linear memory as a byte slice.
- `src/imports.rs` – which host function an import names, and where an
  import of a namespace comes from.
- `src/errors.rs` – the host's errors.
- `src/http.rs` – HTTP methods, schemes, versions, status codes, requests
  and responses.
- `src/components.rs`, `src/dispatch.rs` – the logic of the test components
  and the routing of operations to them.
- `src/interfaces/` – the authentication and collection interfaces: port
  lists, inputs, and reading inputs from MessagePack.
- `src/text.rs` – string helpers.
- `app/` – a Wasmtime engine provider, the process-wide id source, console
  output, and serde copies of the HTTP types with the JSON handler.
- `tests/` – tests of the library.
