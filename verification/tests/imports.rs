use wapc::imports::{callback_for_import, import_source, missing_import_error, HostImport, ImportSource};

#[test]
fn imports_map_to_host_functions() {
    assert_eq!(callback_for_import("__host_call"), Some(HostImport::HostCall));
    assert_eq!(callback_for_import("__console_log"), Some(HostImport::ConsoleLog));
    assert_eq!(callback_for_import("__host_error_len"), Some(HostImport::HostErrorLen));
    assert_eq!(callback_for_import("__guest_call"), None);
}

#[test]
fn import_namespaces_are_classified() {
    assert_eq!(import_source("wapc"), ImportSource::Wapc);
    assert_eq!(import_source("wasi_unstable"), ImportSource::Wasi);
    assert_eq!(import_source("wasi_snapshot_preview1"), ImportSource::Wasi);
    assert_eq!(import_source("env"), ImportSource::Unknown);
}

#[test]
fn only_guest_side_imports_are_required() {
    assert_eq!(
        missing_import_error(HostImport::GuestRequest),
        Some("Module did not import __guest_request - will not work with waPC".to_owned())
    );
    assert_eq!(missing_import_error(HostImport::GuestResponse), Some("Module did not import __guest_response".to_owned()));
    assert_eq!(missing_import_error(HostImport::GuestError), Some("Module did not import __guest_error".to_owned()));
    assert_eq!(missing_import_error(HostImport::HostCall), None);
    assert_eq!(missing_import_error(HostImport::ConsoleLog), None);
}
