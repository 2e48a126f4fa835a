use vstd::prelude::*;
use vstd::string::StringExecFns;

use crate::state::{WapcFunctions, HOST_NAMESPACE};
use crate::text::str_eq;

verus! {

/// The namespace of the WASI "unstable" imports.
pub const WASI_UNSTABLE_NAMESPACE: &'static str = "wasi_unstable";

/// The namespace of the WASI "snapshot preview 1" imports.
pub const WASI_SNAPSHOT_PREVIEW1_NAMESPACE: &'static str = "wasi_snapshot_preview1";

/// The host functions that a waPC guest may import.
#[derive(PartialEq, Eq, Structural, Clone, Copy, Debug)]
pub enum HostImport {
    ConsoleLog,
    HostCall,
    GuestRequest,
    HostResponse,
    HostResponseLen,
    GuestResponse,
    GuestError,
    HostError,
    HostErrorLen,
}

/// Where the function behind an import of a guest module comes from.
#[derive(PartialEq, Eq, Structural, Clone, Copy, Debug)]
pub enum ImportSource {
    /// One of the waPC host functions.
    Wapc,
    /// The WASI implementation of the engine.
    Wasi,
    /// Nothing provides it: the module cannot be instantiated.
    Unknown,
}

/// The host function that the import named `name` of the waPC namespace stands for.
pub open spec fn spec_host_import(name: Seq<char>) -> Option<HostImport> {
    if name == "__console_log"@ {
        Some(HostImport::ConsoleLog)
    } else if name == "__host_call"@ {
        Some(HostImport::HostCall)
    } else if name == "__guest_request"@ {
        Some(HostImport::GuestRequest)
    } else if name == "__host_response"@ {
        Some(HostImport::HostResponse)
    } else if name == "__host_response_len"@ {
        Some(HostImport::HostResponseLen)
    } else if name == "__guest_response"@ {
        Some(HostImport::GuestResponse)
    } else if name == "__guest_error"@ {
        Some(HostImport::GuestError)
    } else if name == "__host_error"@ {
        Some(HostImport::HostError)
    } else if name == "__host_error_len"@ {
        Some(HostImport::HostErrorLen)
    } else {
        None
    }
}

/// The host function for the import named `name` of the waPC namespace,
/// or `None` when waPC has no function of that name.
pub fn callback_for_import(name: &str) -> (r: Option<HostImport>)
    ensures
        r == spec_host_import(name@),
{
    if str_eq(name, "__console_log") {
        Some(HostImport::ConsoleLog)
    } else if str_eq(name, "__host_call") {
        Some(HostImport::HostCall)
    } else if str_eq(name, "__guest_request") {
        Some(HostImport::GuestRequest)
    } else if str_eq(name, "__host_response") {
        Some(HostImport::HostResponse)
    } else if str_eq(name, "__host_response_len") {
        Some(HostImport::HostResponseLen)
    } else if str_eq(name, "__guest_response") {
        Some(HostImport::GuestResponse)
    } else if str_eq(name, "__guest_error") {
        Some(HostImport::GuestError)
    } else if str_eq(name, "__host_error") {
        Some(HostImport::HostError)
    } else if str_eq(name, "__host_error_len") {
        Some(HostImport::HostErrorLen)
    } else {
        None
    }
}

/// Where an import of the module namespace `module` is taken from.
pub open spec fn spec_import_source(module: Seq<char>) -> ImportSource {
    if module == "wapc"@ {
        ImportSource::Wapc
    } else if module == "wasi_snapshot_preview1"@ || module == "wasi_unstable"@ {
        ImportSource::Wasi
    } else {
        ImportSource::Unknown
    }
}

/// Where an import of the module namespace `module` is taken from: the waPC
/// host namespace, one of the two WASI namespaces, or none.
pub fn import_source(module: &str) -> (r: ImportSource)
    ensures
        r == spec_import_source(module@),
{
    if str_eq(module, crate::state::HOST_NAMESPACE) {
        ImportSource::Wapc
    } else if str_eq(module, WASI_SNAPSHOT_PREVIEW1_NAMESPACE) || str_eq(module, WASI_UNSTABLE_NAMESPACE) {
        ImportSource::Wasi
    } else {
        ImportSource::Unknown
    }
}

/// The error with which an engine refuses a module that lacks the import
/// `kind`: only the request, response and error functions of the guest
/// side are indispensable; without the others the module still runs.
pub open spec fn spec_missing_import_error(kind: HostImport) -> Option<Seq<char>> {
    match kind {
        HostImport::GuestRequest => Some("Module did not import __guest_request - will not work with waPC"@),
        HostImport::GuestResponse => Some("Module did not import __guest_response"@),
        HostImport::GuestError => Some("Module did not import __guest_error"@),
        _ => None,
    }
}

/// The error with which an engine refuses a module that lacks the import
/// `kind`, or `None` when the module can run without it.
pub fn missing_import_error(kind: HostImport) -> (r: Option<String>)
    ensures
        match spec_missing_import_error(kind) {
            Some(m) => r matches Some(s) && s@ == m,
            None => r is None,
        },
{
    match kind {
        HostImport::GuestRequest => Some(String::from_str("Module did not import __guest_request - will not work with waPC")),
        HostImport::GuestResponse => Some(String::from_str("Module did not import __guest_response")),
        HostImport::GuestError => Some(String::from_str("Module did not import __guest_error")),
        _ => None,
    }
}

/// Each waPC host function is found under the name that the protocol gives
/// its role (`WapcFunctions`): the guest's `__host_response` import fetches
/// the host response, its `__host_error` import the host error, and so on.
#[verifier::rlimit(50)]
pub proof fn lemma_imports_follow_protocol_names()
    ensures
        spec_host_import(WapcFunctions::HOST_CONSOLE_LOG@) == Some(HostImport::ConsoleLog),
        spec_host_import(WapcFunctions::HOST_CALL@) == Some(HostImport::HostCall),
        spec_host_import(WapcFunctions::GUEST_REQUEST_FN@) == Some(HostImport::GuestRequest),
        spec_host_import(WapcFunctions::HOST_RESPONSE_FN@) == Some(HostImport::HostResponse),
        spec_host_import(WapcFunctions::HOST_RESPONSE_LEN_FN@) == Some(HostImport::HostResponseLen),
        spec_host_import(WapcFunctions::GUEST_RESPONSE_FN@) == Some(HostImport::GuestResponse),
        spec_host_import(WapcFunctions::GUEST_ERROR_FN@) == Some(HostImport::GuestError),
        spec_host_import(WapcFunctions::HOST_ERROR_FN@) == Some(HostImport::HostError),
        spec_host_import(WapcFunctions::HOST_ERROR_LEN_FN@) == Some(HostImport::HostErrorLen),
        spec_import_source(HOST_NAMESPACE@) == ImportSource::Wapc,
        spec_import_source(WASI_SNAPSHOT_PREVIEW1_NAMESPACE@) == ImportSource::Wasi,
        spec_import_source(WASI_UNSTABLE_NAMESPACE@) == ImportSource::Wasi,
{
    reveal_strlit("__console_log");
    reveal_strlit("__host_call");
    reveal_strlit("__guest_request");
    reveal_strlit("__host_response");
    reveal_strlit("__host_response_len");
    reveal_strlit("__guest_response");
    reveal_strlit("__guest_error");
    reveal_strlit("__host_error");
    reveal_strlit("__host_error_len");
    reveal_strlit("wapc");
    reveal_strlit("wasi_snapshot_preview1");
    reveal_strlit("wasi_unstable");
    assert("__console_log"@.len() == 13 && "__host_call"@.len() == 11 && "__guest_request"@.len() == 15);
    assert("__host_response"@.len() == 15 && "__host_response_len"@.len() == 19 && "__guest_response"@.len() == 16);
    assert("__guest_error"@.len() == 13 && "__host_error"@.len() == 12 && "__host_error_len"@.len() == 16);
    assert("__host_response"@[2] != "__guest_request"@[2]);
    assert("__guest_error"@[2] != "__console_log"@[2]);
    assert("__host_error_len"@[2] != "__guest_response"@[2]);
    assert("wasi_unstable"@.len() != "wapc"@.len());
    assert("wasi_snapshot_preview1"@.len() != "wapc"@.len());
}

} // verus!
