use vstd::prelude::*;
use vstd::string::StringExecFns;

verus! {

/// The host module name (namespace) that guest modules must use for their imports.
pub const HOST_NAMESPACE: &'static str = "wapc";

/// The names of the functions that take part in each waPC conversation.
pub struct WapcFunctions;

impl WapcFunctions {
    // -- Functions called by the guest, exported by the host
    pub const HOST_CONSOLE_LOG: &'static str = "__console_log";
    pub const HOST_CALL: &'static str = "__host_call";
    pub const GUEST_REQUEST_FN: &'static str = "__guest_request";
    pub const HOST_RESPONSE_FN: &'static str = "__host_response";
    pub const HOST_RESPONSE_LEN_FN: &'static str = "__host_response_len";
    pub const GUEST_RESPONSE_FN: &'static str = "__guest_response";
    pub const GUEST_ERROR_FN: &'static str = "__guest_error";
    pub const HOST_ERROR_FN: &'static str = "__host_error";
    pub const HOST_ERROR_LEN_FN: &'static str = "__host_error_len";
    // -- Functions called by the host, exported by the guest
    pub const GUEST_CALL: &'static str = "__guest_call";
    pub const WAPC_INIT: &'static str = "wapc_init";
    pub const TINYGO_START: &'static str = "_start";
    /// Start functions to attempt to call, in this order.
    pub const REQUIRED_STARTS: [&'static str; 2] = ["_start", "wapc_init"];
}

/// Parameters for enabling WASI on a module, where the engine supports it.
pub struct WasiParams {
    pub argv: Vec<String>,
    pub map_dirs: Vec<(String, String)>,
    pub env_vars: Vec<(String, String)>,
    pub preopened_dirs: Vec<String>,
}

impl WasiParams {
    pub fn new(
        argv: Vec<String>,
        map_dirs: Vec<(String, String)>,
        env_vars: Vec<(String, String)>,
        preopened_dirs: Vec<String>,
    ) -> (p: WasiParams)
        ensures
            p.argv == argv,
            p.map_dirs == map_dirs,
            p.env_vars == env_vars,
            p.preopened_dirs == preopened_dirs,
    {
        WasiParams { argv, map_dirs, preopened_dirs, env_vars }
    }
}

impl Default for WasiParams {
    fn default() -> (p: WasiParams)
        ensures
            p.argv@.len() == 0,
            p.map_dirs@.len() == 0,
            p.env_vars@.len() == 0,
            p.preopened_dirs@.len() == 0,
    {
        WasiParams {
            argv: Vec::new(),
            map_dirs: Vec::new(),
            env_vars: Vec::new(),
            preopened_dirs: Vec::new(),
        }
    }
}

/// A waPC invocation: an operation name and its opaque binary payload.
pub struct Invocation {
    pub operation: String,
    pub msg: Vec<u8>,
}

impl Clone for Invocation {
    fn clone(&self) -> (r: Invocation)
        ensures
            r@ == self@,
    {
        Invocation { operation: self.operation.clone(), msg: self.msg.clone() }
    }
}

impl View for Invocation {
    type V = (Seq<char>, Seq<u8>);

    open spec fn view(&self) -> (Seq<char>, Seq<u8>) {
        (self.operation@, self.msg@)
    }
}

impl Invocation {
    /// Creates a new invocation.
    pub fn new(op: &str, msg: Vec<u8>) -> (inv: Invocation)
        ensures
            inv@ == (op@, msg@),
    {
        Invocation { operation: String::from_str(op), msg }
    }
}

/// The abstract state of a module handle: the current request, the
/// responses and errors of both sides, whether a host callback is set, and the module id.
pub struct ModuleStateView {
    pub guest_request: Option<(Seq<char>, Seq<u8>)>,
    pub guest_response: Option<Seq<u8>>,
    pub host_response: Option<Seq<u8>>,
    pub guest_error: Option<Seq<char>>,
    pub host_error: Option<Seq<char>>,
    pub has_callback: bool,
    pub id: u64,
}

/// The message recorded as host error when a guest calls the host and no
/// host callback is set.
pub open spec fn missing_callback_message() -> Seq<char> {
    "Missing host callback function!"@
}

/// A host callback's result, seen as plain values.
pub open spec fn host_result_view(r: Result<Vec<u8>, String>) -> Result<Seq<u8>, Seq<char>> {
    match r {
        Ok(v) => Ok(v@),
        Err(e) => Err(e@),
    }
}

/// The status code that a host call reports to the guest: 1 on success, 0 on error.
pub open spec fn host_call_code(r: Result<Seq<u8>, Seq<char>>) -> i32 {
    match r {
        Ok(_) => 1,
        Err(_) => 0,
    }
}

impl ModuleStateView {
    /// The state after a host call completed with result `r`: exactly one of
    /// host response and host error is set.
    pub open spec fn after_host_result(self, r: Result<Seq<u8>, Seq<char>>) -> ModuleStateView {
        match r {
            Ok(v) => ModuleStateView { host_response: Some(v), host_error: None, ..self },
            Err(e) => ModuleStateView { host_response: None, host_error: Some(e), ..self },
        }
    }

    /// The state at the start of a guest call for `inv`: the request is set and
    /// every response and error is cleared.
    pub open spec fn begin_call(self, inv: (Seq<char>, Seq<u8>)) -> ModuleStateView {
        ModuleStateView {
            guest_request: Some(inv),
            guest_response: None,
            host_response: None,
            guest_error: None,
            host_error: None,
            ..self
        }
    }
}

/// A handle that an engine uses to read and write the data of a waPC conversation.
pub struct ModuleState<F> {
    guest_request: Option<Invocation>,
    guest_response: Option<Vec<u8>>,
    host_response: Option<Vec<u8>>,
    guest_error: Option<String>,
    host_error: Option<String>,
    host_callback: Option<F>,
    id: u64,
}

/// An optional invocation seen as plain values.
pub open spec fn opt_invocation_view(o: Option<Invocation>) -> Option<(Seq<char>, Seq<u8>)> {
    match o {
        Some(i) => Some(i@),
        None => None,
    }
}

/// Optional bytes seen as plain values.
pub open spec fn opt_bytes_view(o: Option<Vec<u8>>) -> Option<Seq<u8>> {
    match o {
        Some(v) => Some(v@),
        None => None,
    }
}

/// An optional string seen as plain values.
pub open spec fn opt_string_view(o: Option<String>) -> Option<Seq<char>> {
    match o {
        Some(s) => Some(s@),
        None => None,
    }
}

impl<F> View for ModuleState<F> {
    type V = ModuleStateView;

    closed spec fn view(&self) -> ModuleStateView {
        ModuleStateView {
            guest_request: opt_invocation_view(self.guest_request),
            guest_response: opt_bytes_view(self.guest_response),
            host_response: opt_bytes_view(self.host_response),
            guest_error: opt_string_view(self.guest_error),
            host_error: opt_string_view(self.host_error),
            has_callback: self.host_callback is Some,
            id: self.id,
        }
    }
}

fn clone_opt_bytes(o: &Option<Vec<u8>>) -> (r: Option<Vec<u8>>)
    ensures
        opt_bytes_view(r) == opt_bytes_view(*o),
{
    match o {
        Some(v) => Some(v.clone()),
        None => None,
    }
}

fn clone_opt_string(o: &Option<String>) -> (r: Option<String>)
    ensures
        opt_string_view(r) == opt_string_view(*o),
{
    match o {
        Some(s) => Some(s.clone()),
        None => None,
    }
}

impl<F> Default for ModuleState<F> {
    fn default() -> (s: ModuleState<F>)
        ensures
            s@ == (ModuleStateView {
                guest_request: None,
                guest_response: None,
                host_response: None,
                guest_error: None,
                host_error: None,
                has_callback: false,
                id: 0,
            }),
            s.callback() is None,
    {
        ModuleState {
            guest_request: None,
            guest_response: None,
            host_response: None,
            guest_error: None,
            host_error: None,
            host_callback: None,
            id: 0,
        }
    }
}

impl<F> ModuleState<F> {
    /// The host callback that this state holds, if any.
    pub closed spec fn callback(&self) -> Option<F> {
        self.host_callback
    }

    /// The view says a host callback is set exactly when the state holds one.
    pub proof fn lemma_callback_in_view(&self)
        ensures
            self@.has_callback <==> self.callback() is Some,
    {
    }

    /// Creates the state of a module with the given host callback and id;
    /// no request, response or error is set yet.
    pub fn new(host_callback: F, id: u64) -> (s: ModuleState<F>)
        ensures
            s@ == (ModuleStateView {
                guest_request: None,
                guest_response: None,
                host_response: None,
                guest_error: None,
                host_error: None,
                has_callback: true,
                id: id,
            }),
            s.callback() == Some(host_callback),
    {
        ModuleState {
            host_callback: Some(host_callback),
            id,
            guest_request: None,
            guest_response: None,
            host_response: None,
            guest_error: None,
            host_error: None,
        }
    }

    /// The id of the module.
    pub fn id(&self) -> (id: u64)
        ensures
            id == self@.id,
    {
        self.id
    }

    /// The current guest request, if any.
    pub fn get_guest_request(&self) -> (r: Option<Invocation>)
        ensures
            opt_invocation_view(r) == self@.guest_request,
    {
        match &self.guest_request {
            Some(inv) => Some(inv.clone()),
            None => None,
        }
    }

    /// The current host response, if any.
    pub fn get_host_response(&self) -> (r: Option<Vec<u8>>)
        ensures
            opt_bytes_view(r) == self@.host_response,
    {
        clone_opt_bytes(&self.host_response)
    }

    /// Records that an error occurred inside the execution of a guest call.
    pub fn set_guest_error(&mut self, error: String)
        ensures
            final(self)@ == (ModuleStateView { guest_error: Some(error@), ..old(self)@ }),
            final(self).callback() == old(self).callback(),
    {
        self.guest_error = Some(error);
    }

    /// Records the response data of a guest call.
    pub fn set_guest_response(&mut self, response: Vec<u8>)
        ensures
            final(self)@ == (ModuleStateView { guest_response: Some(response@), ..old(self)@ }),
            final(self).callback() == old(self).callback(),
    {
        self.guest_response = Some(response);
    }

    /// The current guest response, if any.
    pub fn get_guest_response(&self) -> (r: Option<Vec<u8>>)
        ensures
            opt_bytes_view(r) == self@.guest_response,
    {
        clone_opt_bytes(&self.guest_response)
    }

    /// The current guest error, if any.
    pub fn get_guest_error(&self) -> (r: Option<String>)
        ensures
            opt_string_view(r) == self@.guest_error,
    {
        clone_opt_string(&self.guest_error)
    }

    /// The current host error, if any.
    pub fn get_host_error(&self) -> (r: Option<String>)
        ensures
            opt_string_view(r) == self@.host_error,
    {
        clone_opt_string(&self.host_error)
    }

    /// Replaces the host callback.
    pub fn set_host_callback(&mut self, callback: F)
        ensures
            final(self)@ == (ModuleStateView { has_callback: true, ..old(self)@ }),
            final(self).callback() == Some(callback),
    {
        self.host_callback = Some(callback);
    }

    /// Records the outcome of a host call: its payload as host response on
    /// success, or its message as host error on failure. Returns the status
    /// code for the guest: 1 on success, 0 on failure.
    pub fn record_host_result(&mut self, result: Result<Vec<u8>, String>) -> (code: i32)
        ensures
            final(self)@ == old(self)@.after_host_result(host_result_view(result)),
            code == host_call_code(host_result_view(result)),
            final(self).callback() == old(self).callback(),
    {
        self.host_response = None;
        self.host_error = None;
        match result {
            Ok(v) => {
                self.host_response = Some(v);
                1
            },
            Err(e) => {
                self.host_error = Some(e);
                0
            },
        }
    }

    /// Starts a guest call for `inv`: sets the request and clears every
    /// response and error left from an earlier call.
    pub fn begin_call(&mut self, inv: Invocation)
        ensures
            final(self)@ == old(self)@.begin_call(inv@),
            final(self).callback() == old(self).callback(),
    {
        self.guest_response = None;
        self.guest_request = Some(inv);
        self.guest_error = None;
        self.host_response = None;
        self.host_error = None;
    }
}

impl<F: Fn(u64, &str, &str, &str, &[u8]) -> Result<Vec<u8>, String>> ModuleState<F> {
    /// Whether the host callback accepts the arguments of a host call.
    pub open spec fn host_call_allowed(&self, binding: &str, namespace: &str, operation: &str, payload: &[u8]) -> bool {
        self.callback() matches Some(f) ==> call_requires(f, (self@.id, binding, namespace, operation, payload))
    }

    /// Performs a host call on behalf of the guest: hands the module id and the
    /// arguments to the host callback and records its outcome. Without a
    /// callback, the call fails with a message saying so.
    pub fn do_host_call(
        &mut self,
        binding: &str,
        namespace: &str,
        operation: &str,
        payload: &[u8],
    ) -> (res: Result<i32, String>)
        requires
            old(self).host_call_allowed(binding, namespace, operation, payload),
        ensures
            final(self).callback() == old(self).callback(),
            old(self).callback() is None ==> {
                &&& final(self)@ == old(self)@.after_host_result(Err(missing_callback_message()))
                &&& res == Ok::<i32, String>(0)
            },
            old(self).callback() matches Some(f) ==> exists|r: Result<Vec<u8>, String>| {
                &&& call_ensures(f, (old(self)@.id, binding, namespace, operation, payload), r)
                &&& final(self)@ == old(self)@.after_host_result(host_result_view(r))
                &&& res == Ok::<i32, String>(host_call_code(host_result_view(r)))
            },
    {
        let id = self.id;
        let result = match &self.host_callback {
            Some(f) => f(id, binding, namespace, operation, payload),
            None => Err(String::from_str("Missing host callback function!")),
        };
        proof {
            reveal_strlit("Missing host callback function!");
        }
        let code = self.record_host_result(result);
        Ok(code)
    }
}

/// The id that follows `n`: one more, or 0 after the largest.
pub open spec fn next_id(n: u64) -> u64 {
    if n == u64::MAX {
        0
    } else {
        (n + 1) as u64
    }
}

/// The id that a source whose next id is `n` hands out after `k` others.
pub open spec fn id_after(n: u64, k: nat) -> u64
    decreases k,
{
    if k == 0 {
        n
    } else {
        next_id(id_after(n, (k - 1) as nat))
    }
}

/// Hands out module ids, one after another, starting from 1.
pub struct ModuleIds {
    next: u64,
}

impl ModuleIds {
    /// The id that the source hands out next.
    pub closed spec fn spec_next(&self) -> u64 {
        self.next
    }

    /// A source whose first id is 1.
    pub fn new() -> (s: ModuleIds)
        ensures
            s.spec_next() == 1,
    {
        ModuleIds { next: 1 }
    }

    /// Hands out the next id.
    pub fn take(&mut self) -> (id: u64)
        ensures
            id == old(self).spec_next(),
            final(self).spec_next() == next_id(old(self).spec_next()),
    {
        let id = self.next;
        self.next = self.next.wrapping_add(1);
        id
    }
}

/// Before the source goes round, the id handed out after `k` others is `k`
/// more than the first.
pub proof fn lemma_id_after(n: u64, k: nat)
    requires
        n + k <= u64::MAX,
    ensures
        id_after(n, k) == n + k,
    decreases k,
{
    if k > 0 {
        lemma_id_after(n, (k - 1) as nat);
    }
}

/// Ids handed out by one source are distinct, as long as the source has not
/// gone round past the largest id.
pub proof fn lemma_ids_distinct(n: u64, i: nat, j: nat)
    requires
        i < j,
        n + j <= u64::MAX,
    ensures
        id_after(n, i) != id_after(n, j),
{
    lemma_id_after(n, i);
    lemma_id_after(n, j);
}

} // verus!
