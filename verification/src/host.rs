use vstd::prelude::*;
use vstd::string::StringExecFns;

use crate::errors::{self, Error, ErrorKind};
use crate::state::{
    WapcFunctions,
    host_call_code, host_result_view, opt_bytes_view, opt_invocation_view, opt_string_view, Invocation,
    ModuleState, ModuleStateView,
};
use vstd::utf8::encode_utf8;

verus! {

/// The length that the guest is told of a byte sequence: its length as a
/// 32-bit integer, as the engine interface carries it.
pub open spec fn wasm_len(n: nat) -> i32 {
    (n as usize) as i32
}

/// The state that an engine finds when the host starts a guest call: a
/// request is set, nothing else is, and the lengths handed over are those of
/// the operation name (in UTF-8 bytes) and of the payload.
pub open spec fn call_ready(s: ModuleStateView, op_length: i32, msg_length: i32) -> bool {
    &&& s.guest_request matches Some(inv)
    &&& op_length == wasm_len(encode_utf8(inv.0).len())
    &&& msg_length == wasm_len(inv.1.len())
    &&& s.guest_response is None
    &&& s.guest_error is None
    &&& s.host_response is None
    &&& s.host_error is None
}

/// The state of a module that has had no call yet: nothing is set but the
/// host callback.
pub open spec fn fresh_state(s: ModuleStateView) -> bool {
    &&& s.guest_request is None
    &&& s.guest_response is None
    &&& s.guest_error is None
    &&& s.host_response is None
    &&& s.host_error is None
    &&& s.has_callback
}

/// An engine provider encapsulates the low-level WebAssembly work (linear
/// memory, function calls, imports) in a way that follows the waPC protocol.
/// During a call it reads the request from, and writes the outcome into, the
/// module state it is handed.
pub trait WebAssemblyEngineProvider<F>: Sized {
    /// What an engine reports when, being `before`, it initializes the module
    /// whose state is `host_in`, and ends as `after` with the module state
    /// `host_out`. Each engine states this of itself. An engine that does not
    /// gets some fixed function of these arguments, of which nothing is known.
    open spec fn init_report(before: Self, after: Self, host_in: ModuleStateView, host_out: ModuleStateView) -> Result<(), Seq<char>> {
        vstd::pervasive::arbitrary::<spec_fn(Self, Self, ModuleStateView, ModuleStateView) -> Result<(), Seq<char>>>()(
            before,
            after,
            host_in,
            host_out,
        )
    }

    /// What an engine reports (the guest's status code, or its own failure)
    /// when, being `before`, it runs `__guest_call` with the lengths
    /// `op_length` and `msg_length` on the module state `host_in`, and ends as
    /// `after` with the module state `host_out`. Each engine states this of
    /// itself. An engine that does not gets some fixed function of these
    /// arguments, of which nothing is known.
    open spec fn call_report(
        before: Self,
        after: Self,
        host_in: ModuleStateView,
        host_out: ModuleStateView,
        op_length: i32,
        msg_length: i32,
    ) -> Result<i32, Seq<char>> {
        vstd::pervasive::arbitrary::<
            spec_fn(Self, Self, ModuleStateView, ModuleStateView, i32, i32) -> Result<i32, Seq<char>>,
        >()(before, after, host_in, host_out, op_length, msg_length)
    }

    /// What an engine reports when, being `before`, it is handed the module
    /// bytes `bytes` with the module state `host_in`, and ends as `after` with
    /// the module state `host_out`. Each engine states this of itself. An
    /// engine that does not gets some fixed function of these arguments, of
    /// which nothing is known.
    open spec fn replace_report(
        before: Self,
        after: Self,
        host_in: ModuleStateView,
        host_out: ModuleStateView,
        bytes: Seq<u8>,
    ) -> Result<(), Seq<char>> {
        vstd::pervasive::arbitrary::<
            spec_fn(Self, Self, ModuleStateView, ModuleStateView, Seq<u8>) -> Result<(), Seq<char>>,
        >()(before, after, host_in, host_out, bytes)
    }

    /// Prepares the engine (and runs the module's start functions) with the
    /// state of a module that has had no call yet. The engine leaves the
    /// module's id and host callback as they are.
    fn init(&mut self, host: &mut ModuleState<F>) -> (r: Result<(), String>)
        requires
            fresh_state(old(host)@),
        ensures
            unit_result_view(r) == Self::init_report(*old(self), *final(self), old(host)@, final(host)@),
            final(host)@.id == old(host)@.id,
            final(host).callback() == old(host).callback(),
    ;

    /// Runs `__guest_call` in the guest with the lengths of the operation
    /// name and payload of the current request. Returns the guest's status
    /// code (0 for failure); the guest response or error is left in the state.
    /// The engine leaves the module's id and host callback as they are.
    fn call(&mut self, host: &mut ModuleState<F>, op_length: i32, msg_length: i32) -> (r: Result<i32, String>)
        requires
            call_ready(old(host)@, op_length, msg_length),
        ensures
            engine_result_view(r) == Self::call_report(
                *old(self),
                *final(self),
                old(host)@,
                final(host)@,
                op_length,
                msg_length,
            ),
            final(host)@.id == old(host)@.id,
            final(host).callback() == old(host).callback(),
    ;

    /// Replaces the module bytes of the running module. The engine leaves
    /// the module's id and host callback as they are.
    fn replace(&mut self, host: &mut ModuleState<F>, bytes: &[u8]) -> (r: Result<(), String>)
        ensures
            unit_result_view(r) == Self::replace_report(*old(self), *final(self), old(host)@, final(host)@, bytes@),
            final(host)@.id == old(host)@.id,
            final(host).callback() == old(host).callback(),
    ;
}

/// The state of a module with the id `id` and a host callback, before any
/// call: no request, response or error is set.
pub open spec fn initial_state(id: u64) -> ModuleStateView {
    ModuleStateView {
        guest_request: None,
        guest_response: None,
        host_response: None,
        guest_error: None,
        host_error: None,
        has_callback: true,
        id: id,
    }
}

/// What a host's `new` returns for the engine's report on initializing:
/// success, or the engine's message after "Failed to initialize guest module: ".
pub open spec fn init_outcome(report: Result<(), Seq<char>>) -> Result<(), Seq<char>> {
    match report {
        Ok(_) => Ok(()),
        Err(m) => Err("Failed to initialize guest module: "@ + m),
    }
}

/// Whether a host was created, or the message of the failure, as plain values.
pub open spec fn host_result_of_init<E, F>(r: Result<WapcHost<E, F>, Error>) -> Result<(), Seq<char>> {
    match r {
        Ok(_) => Ok(()),
        Err(e) => Err(e.spec_message()),
    }
}

/// What a host's `replace_module` returns for the engine's report: success,
/// or the engine's message after "Failed to swap module bytes: ".
pub open spec fn replace_outcome(report: Result<(), Seq<char>>) -> Result<(), Seq<char>> {
    match report {
        Ok(_) => Ok(()),
        Err(m) => Err("Failed to swap module bytes: "@ + m),
    }
}

/// A result without a payload, or a guest call failure, seen as plain values.
pub open spec fn unit_error_view(r: Result<(), Error>) -> Result<(), Seq<char>> {
    match r {
        Ok(_) => Ok(()),
        Err(e) => Err(e.spec_message()),
    }
}

/// A result without a payload seen as plain values.
pub open spec fn unit_result_view(r: Result<(), String>) -> Result<(), Seq<char>> {
    match r {
        Ok(_) => Ok(()),
        Err(e) => Err(e@),
    }
}

/// The access to the state of a waPC conversation that an engine needs.
pub trait ModuleHost {
    /// Whether a host call with these arguments may be made.
    spec fn host_call_allowed(&self, binding: &str, namespace: &str, operation: &str, payload: &[u8]) -> bool;

    /// The invocation bound for the guest module.
    fn get_guest_request(&self) -> Option<Invocation>;

    /// The result of the last host call.
    fn get_host_response(&self) -> Option<Vec<u8>>;

    /// Records a failure inside the guest module.
    fn set_guest_error(&mut self, error: String);

    /// Records the response data of a guest call.
    fn set_guest_response(&mut self, response: Vec<u8>);

    /// The error of the last host call, if it failed.
    fn get_host_error(&self) -> Option<String>;

    /// Performs a host call; returns 1 when the host response is set and 0
    /// when the host error is set.
    fn do_host_call(
        &mut self,
        binding: &str,
        namespace: &str,
        operation: &str,
        payload: &[u8],
    ) -> Result<i32, String>
        requires
            old(self).host_call_allowed(binding, namespace, operation, payload),
    ;
}

impl<F: Fn(u64, &str, &str, &str, &[u8]) -> Result<Vec<u8>, String>> ModuleHost for ModuleState<F> {
    open spec fn host_call_allowed(&self, binding: &str, namespace: &str, operation: &str, payload: &[u8]) -> bool {
        ModuleState::<F>::host_call_allowed(self, binding, namespace, operation, payload)
    }

    fn get_guest_request(&self) -> (r: Option<Invocation>)
        ensures
            opt_invocation_view(r) == self@.guest_request,
    {
        ModuleState::<F>::get_guest_request(self)
    }

    fn get_host_response(&self) -> (r: Option<Vec<u8>>)
        ensures
            opt_bytes_view(r) == self@.host_response,
    {
        ModuleState::<F>::get_host_response(self)
    }

    fn set_guest_error(&mut self, error: String)
        ensures
            final(self)@ == (ModuleStateView { guest_error: Some(error@), ..old(self)@ }),
    {
        ModuleState::<F>::set_guest_error(self, error)
    }

    fn set_guest_response(&mut self, response: Vec<u8>)
        ensures
            final(self)@ == (ModuleStateView { guest_response: Some(response@), ..old(self)@ }),
    {
        ModuleState::<F>::set_guest_response(self, response)
    }

    fn get_host_error(&self) -> (r: Option<String>)
        ensures
            opt_string_view(r) == self@.host_error,
    {
        ModuleState::<F>::get_host_error(self)
    }

    fn do_host_call(
        &mut self,
        binding: &str,
        namespace: &str,
        operation: &str,
        payload: &[u8],
    ) -> (res: Result<i32, String>)
        ensures
            res is Ok,
            (res matches Ok(c) && c == 1) <==> final(self)@.host_response is Some,
            (res matches Ok(c) && c == 0) <==> final(self)@.host_error is Some,
    {
        ModuleState::<F>::do_host_call(self, binding, namespace, operation, payload)
    }
}

/// What a guest call returns, decided from the guest's status code and the
/// guest response and error it left: a status of 0 is a failure with the
/// guest's error message (or a default one); otherwise the guest response is
/// returned, or, if none was set, the failure is reported in the same way.
pub open spec fn call_outcome(
    callresult: i32,
    guest_response: Option<Seq<u8>>,
    guest_error: Option<Seq<char>>,
) -> Result<Seq<u8>, Seq<char>> {
    if callresult == 0 {
        match guest_error {
            Some(s) => Err(s),
            None => Err("No error message set for call failure"@),
        }
    } else {
        match guest_response {
            Some(r) => Ok(r),
            None => match guest_error {
                Some(s) => Err(s),
                None => Err("No error message OR response set for call success"@),
            },
        }
    }
}

/// What a host's `call` returns for the engine's result `engine` and the
/// module state after the engine ran.
pub open spec fn host_call_outcome(engine: Result<i32, Seq<char>>, s: ModuleStateView) -> Result<Seq<u8>, Seq<char>> {
    match engine {
        Err(m) => Err(m),
        Ok(c) => call_outcome(c, s.guest_response, s.guest_error),
    }
}

/// An engine's result seen as plain values.
pub open spec fn engine_result_view(r: Result<i32, String>) -> Result<i32, Seq<char>> {
    match r {
        Ok(c) => Ok(c),
        Err(e) => Err(e@),
    }
}

/// A call's result seen as plain values: the payload, or the message of the guest call failure.
pub open spec fn call_result_view(r: Result<Vec<u8>, Error>) -> Result<Seq<u8>, Seq<char>> {
    match r {
        Ok(v) => Ok(v@),
        Err(e) => Err(e.spec_message()),
    }
}

fn guest_failure(msg: String) -> (e: Error)
    ensures
        e.kind == ErrorKind::GuestCallFailure(msg),
{
    errors::new(ErrorKind::GuestCallFailure(msg))
}

/// Decides the result of a guest call from the guest's status code and the
/// module state that the guest left.
pub fn call_result<F>(callresult: i32, state: &ModuleState<F>) -> (r: Result<Vec<u8>, Error>)
    ensures
        call_result_view(r) == call_outcome(callresult, state@.guest_response, state@.guest_error),
{
    proof {
        reveal_strlit("No error message set for call failure");
        reveal_strlit("No error message OR response set for call success");
    }
    if callresult == 0 {
        match state.get_guest_error() {
            Some(s) => Err(guest_failure(s)),
            None => Err(guest_failure(String::from_str("No error message set for call failure"))),
        }
    } else {
        match state.get_guest_response() {
            Some(r) => Ok(r),
            None => match state.get_guest_error() {
                Some(s) => Err(guest_failure(s)),
                None => Err(guest_failure(String::from_str("No error message OR response set for call success"))),
            },
        }
    }
}

/// The names in `names`, as plain values.
pub open spec fn export_names(names: Seq<String>) -> Seq<Seq<char>> {
    names.map_values(|n: String| n@)
}

/// The start functions that an engine calls, in order, on a module that
/// exports the functions named in `exports`: "_start" and then "wapc_init",
/// each only if the module exports it.
pub open spec fn start_sequence(exports: Seq<Seq<char>>) -> Seq<Seq<char>> {
    (if exports.contains("_start"@) { seq!["_start"@] } else { Seq::empty() }) + (if exports.contains("wapc_init"@) {
        seq!["wapc_init"@]
    } else {
        Seq::empty()
    })
}

/// The start functions are the entries of `WapcFunctions::REQUIRED_STARTS`
/// that the module exports, in the order of that list: the TinyGo runtime
/// start before `wapc_init`.
pub proof fn lemma_start_sequence_follows_required_starts(exports: Seq<Seq<char>>)
    ensures
        ({
            let req = WapcFunctions::REQUIRED_STARTS@;
            start_sequence(exports) == (if exports.contains(req[0]@) { seq![req[0]@] } else { Seq::empty() }) + (
            if exports.contains(req[1]@) {
                seq![req[1]@]
            } else {
                Seq::empty()
            })
        }),
{
}

fn exports_name(exports: &Vec<String>, name: &str) -> (b: bool)
    ensures
        b == export_names(exports@).contains(name@),
{
    let n = exports.len();
    let mut i: usize = 0;
    while i < n
        invariant
            n == exports@.len(),
            i <= n,
            forall|j: int| 0 <= j < i ==> export_names(exports@)[j] != name@,
        decreases n - i,
    {
        if crate::text::str_eq(exports[i].as_str(), name) {
            assert(export_names(exports@)[i as int] == name@);
            return true;
        }
        i = i + 1;
    }
    false
}

/// The start functions that an engine calls, in order, on a module whose
/// exported functions are named in `exports`.
pub fn start_functions(exports: &Vec<String>) -> (r: Vec<&'static str>)
    ensures
        r@.map_values(|s: &'static str| s@) == start_sequence(export_names(exports@)),
{
    let mut r: Vec<&'static str> = Vec::new();
    if exports_name(exports, "_start") {
        r.push("_start");
    }
    if exports_name(exports, "wapc_init") {
        r.push("wapc_init");
    }
    assert(r@.map_values(|s: &'static str| s@) =~= start_sequence(export_names(exports@)));
    r
}

/// What an engine's `call` returns once `__guest_call` ran: the status code
/// that the guest returned; or, when the guest trapped with the message
/// `run`'s error, 0, after recording that message as the guest error.
pub fn guest_call_status<F>(state: &mut ModuleState<F>, run: Result<i32, String>) -> (code: i32)
    ensures
        final(state).callback() == old(state).callback(),
        match run {
            Ok(c) => code == c && final(state)@ == old(state)@,
            Err(m) => code == 0 && final(state)@ == (ModuleStateView { guest_error: Some(m@), ..old(state)@ }),
        },
{
    match run {
        Ok(c) => c,
        Err(m) => {
            state.set_guest_error(m);
            0
        },
    }
}

/// The error reported when the engine fails to initialize the module.
pub fn init_failure(msg: String) -> (e: Error)
    ensures
        e.spec_message() == "Failed to initialize guest module: "@ + msg@,
{
    proof {
        reveal_strlit("Failed to initialize guest module: ");
    }
    let s = String::from_str("Failed to initialize guest module: ").concat(msg.as_str());
    guest_failure(s)
}

/// The error reported when the engine fails to swap the module bytes.
pub fn replace_failure(msg: String) -> (e: Error)
    ensures
        e.spec_message() == "Failed to swap module bytes: "@ + msg@,
{
    proof {
        reveal_strlit("Failed to swap module bytes: ");
    }
    let s = String::from_str("Failed to swap module bytes: ").concat(msg.as_str());
    guest_failure(s)
}

/// A WebAssembly host runtime for waPC-compliant modules: it invokes
/// procedures in the guest by operation name and opaque payload, through
/// the engine provider it was created with.
pub struct WapcHost<E, F> {
    engine: E,
    state: ModuleState<F>,
}

impl<E, F> WapcHost<E, F> {
    /// The module state that the host keeps.
    pub closed spec fn spec_state(&self) -> ModuleState<F> {
        self.state
    }

    /// The engine that the host runs the module with.
    pub closed spec fn spec_engine(&self) -> E {
        self.engine
    }

    /// The module state that the host keeps.
    pub fn state(&self) -> (s: &ModuleState<F>)
        ensures
            *s == self.spec_state(),
    {
        &self.state
    }

    /// The unique identifier of this module, handed to the host callback on each host call.
    pub fn id(&self) -> (id: u64)
        ensures
            id == self.spec_state()@.id,
    {
        self.state.id()
    }

    /// Replaces the host callback.
    pub fn set_callback(&mut self, host_callback: F)
        ensures
            final(self).spec_state()@ == (ModuleStateView { has_callback: true, ..old(self).spec_state()@ }),
            final(self).spec_state().callback() == Some(host_callback),
    {
        self.state.set_host_callback(host_callback);
    }
}

impl<F: Fn(u64, &str, &str, &str, &[u8]) -> Result<Vec<u8>, String>, E: WebAssemblyEngineProvider<F>> WapcHost<E, F> {
    /// Creates a host for a module with the given engine, host callback and
    /// module id, and lets the engine initialize. Succeeds, holding the
    /// initialized engine, when the engine reports success; fails when the
    /// engine does, with the engine's message after "Failed to initialize
    /// guest module: ". Alongside, as a ghost value, the engine and module
    /// state that the initialization ended with, so that the result is tied
    /// to the engine's report on that very run.
    pub fn new(engine: E, host_callback: F, id: u64) -> (r: (Result<WapcHost<E, F>, Error>, Ghost<(E, ModuleStateView)>))
        ensures
            ({
                let run = r.1@;
                &&& host_result_of_init(r.0) == init_outcome(E::init_report(engine, run.0, initial_state(id), run.1))
                &&& r.0 matches Ok(h) ==> {
                    &&& h.spec_engine() == run.0
                    &&& h.spec_state()@ == run.1
                    &&& h.spec_state()@.id == id
                    &&& h.spec_state().callback() == Some(host_callback)
                }
            }),
    {
        let mut state = ModuleState::new(host_callback, id);
        let mut engine = engine;
        let result = engine.init(&mut state);
        let ghost run = (engine, state@);
        match result {
            Ok(_) => (Ok(WapcHost { engine, state }), Ghost(run)),
            Err(e) => (Err(init_failure(e)), Ghost(run)),
        }
    }

    /// Invokes `__guest_call` in the guest for the operation `op` with the
    /// payload `payload`, and returns the guest's response or the failure.
    /// The engine is handed a state holding just this request.
    pub fn call(&mut self, op: &str, payload: &[u8]) -> (r: Result<Vec<u8>, Error>)
        ensures
            call_result_view(r) == host_call_outcome(
                E::call_report(
                    old(self).spec_engine(),
                    final(self).spec_engine(),
                    old(self).spec_state()@.begin_call((op@, payload@)),
                    final(self).spec_state()@,
                    wasm_len(encode_utf8(op@).len()),
                    wasm_len(payload@.len()),
                ),
                final(self).spec_state()@,
            ),
            final(self).spec_state()@.id == old(self).spec_state()@.id,
            final(self).spec_state().callback() == old(self).spec_state().callback(),
    {
        let inv = Invocation::new(op, vstd::slice::slice_to_vec(payload));
        let op_bytes = inv.operation.as_str().len();
        let op_length = #[verifier::truncate] (op_bytes as i32);
        let msg_length = #[verifier::truncate] (inv.msg.len() as i32);
        assert(op_length == wasm_len(encode_utf8(inv@.0).len()));
        assert(msg_length == wasm_len(inv@.1.len()));
        self.state.begin_call(inv);
        let engine_result = self.engine.call(&mut self.state, op_length, msg_length);
        let r = match engine_result {
            Ok(c) => call_result(c, &self.state),
            Err(e) => Err(guest_failure(e)),
        };
        r
    }

    /// Replaces the WebAssembly module bytes of the running module ("hot
    /// swap"). Succeeds when the engine, handed these bytes, reports success;
    /// fails when it does not, with the engine's message after "Failed to
    /// swap module bytes: ".
    pub fn replace_module(&mut self, module: &[u8]) -> (r: Result<(), Error>)
        ensures
            unit_error_view(r) == replace_outcome(
                E::replace_report(
                    old(self).spec_engine(),
                    final(self).spec_engine(),
                    old(self).spec_state()@,
                    final(self).spec_state()@,
                    module@,
                ),
            ),
            final(self).spec_state()@.id == old(self).spec_state()@.id,
            final(self).spec_state().callback() == old(self).spec_state().callback(),
    {
        match self.engine.replace(&mut self.state, module) {
            Ok(_) => Ok(()),
            Err(e) => Err(replace_failure(e)),
        }
    }
}

} // verus!

verus! {

/// Starting a call puts the state in the shape an engine's `call` expects,
/// with the lengths of the operation name and payload of the request.
pub proof fn lemma_begin_call_ready(s: ModuleStateView, inv: (Seq<char>, Seq<u8>))
    ensures
        call_ready(s.begin_call(inv), wasm_len(encode_utf8(inv.0).len()), wasm_len(inv.1.len())),
        s.begin_call(inv).id == s.id,
        s.begin_call(inv).has_callback == s.has_callback,
{
}

/// A guest call succeeds exactly when the guest reported success and left
/// a response, and then it returns that response.
pub proof fn lemma_call_outcome_success(callresult: i32, resp: Option<Seq<u8>>, err: Option<Seq<char>>)
    ensures
        call_outcome(callresult, resp, err) is Ok <==> (callresult != 0 && resp is Some),
        (callresult != 0 && resp is Some) ==> call_outcome(callresult, resp, err) == Ok::<Seq<u8>, Seq<char>>(resp->0),
        (callresult == 0 && err is Some) ==> call_outcome(callresult, resp, err) == Err::<Seq<u8>, Seq<char>>(err->0),
{
}

} // verus!

verus! {

/// What a guest hands back at the end of `__guest_call`: the response of a
/// successful operation or the message of its failure.
pub enum GuestReply {
    Response(Vec<u8>),
    Error(String),
}

impl GuestReply {
    /// The status code that `__guest_call` returns with this reply.
    pub open spec fn spec_code(&self) -> i32 {
        match self {
            GuestReply::Response(_) => 1,
            GuestReply::Error(_) => 0,
        }
    }

    /// The status code that `__guest_call` returns with this reply: 1 for a
    /// response, 0 for an error.
    pub fn code(&self) -> (c: i32)
        ensures
            c == self.spec_code(),
    {
        match self {
            GuestReply::Response(_) => 1,
            GuestReply::Error(_) => 0,
        }
    }
}

/// What a guest replies to `__guest_call` after dispatching the operation:
/// the dispatcher's response, or the message of its error.
pub fn guest_call_reply(dispatched: Result<Vec<u8>, String>) -> (r: GuestReply)
    ensures
        match dispatched {
            Ok(v) => r matches GuestReply::Response(w) && w@ == v@,
            Err(m) => r matches GuestReply::Error(e) && e@ == m@,
        },
{
    match dispatched {
        Ok(v) => GuestReply::Response(v),
        Err(m) => GuestReply::Error(m),
    }
}

/// Host and guest agree: when the guest records its reply (response or
/// error) into a freshly started call and returns the reply's code, the
/// host's call returns that response, or fails with that message.
pub proof fn lemma_guest_reply_reaches_host(s: ModuleStateView, inv: (Seq<char>, Seq<u8>), reply: GuestReply)
    ensures
        ({
            let started = s.begin_call(inv);
            match reply {
                GuestReply::Response(v) => call_outcome(
                    reply.spec_code(),
                    ModuleStateView { guest_response: Some(v@), ..started }.guest_response,
                    started.guest_error,
                ) == Ok::<Seq<u8>, Seq<char>>(v@),
                GuestReply::Error(m) => call_outcome(
                    reply.spec_code(),
                    started.guest_response,
                    ModuleStateView { guest_error: Some(m@), ..started }.guest_error,
                ) == Err::<Seq<u8>, Seq<char>>(m@),
            }
        }),
{
}

} // verus!
