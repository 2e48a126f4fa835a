use wapc::dispatch::{
    main_dispatcher, network_dispatcher, wapc_dispatcher, wasi_dispatcher, wasm_dispatcher, ComponentDispatcher,
    DispatchTarget, NativeHost,
};
use wapc::dispatch::{network_signature, wasi_signature, wasm_signature};

#[test]
fn dispatch_finds_components() {
    let d = wasm_dispatcher();
    assert_eq!(d.dispatch("error").ok(), Some(0));
    assert_eq!(d.dispatch("validate").ok(), Some(5));
    assert_eq!(wapc_dispatcher().dispatch("copy").ok(), Some(0));
    assert_eq!(network_dispatcher().dispatch("main").ok(), Some(1));
    assert_eq!(main_dispatcher().dispatch("main").ok(), Some(0));
}

#[test]
fn dispatch_reports_unknown_component() {
    let e = wasm_dispatcher().dispatch("nope").err().unwrap();
    assert_eq!(e.operation, "nope");
    assert_eq!(e.available, "error, reverse, reverse-uppercase, scratch, uppercase, validate");
    let e = wasi_dispatcher().dispatch("__batch__").err().unwrap();
    assert_eq!(e.available, "fs-read");
}

#[test]
fn native_dispatch_accepts_batch() {
    let d = network_dispatcher();
    assert_eq!(d.dispatch_native("__batch__", NativeHost::Provider).ok(), Some(DispatchTarget::Batch));
    assert_eq!(d.dispatch_native("byte-count", NativeHost::Provider).ok(), Some(DispatchTarget::Component(0)));
    assert!(d.dispatch_native("x", NativeHost::Provider).is_err());
}

#[test]
fn native_dispatch_names_the_module_kind() {
    assert_eq!(
        network_dispatcher().dispatch_native("x", NativeHost::Provider).err().unwrap(),
        "Component not found on this provider: x"
    );
    assert_eq!(
        wasm_dispatcher().dispatch_native("nope", NativeHost::Collection).err().unwrap(),
        "Component not found on this collection: nope"
    );
    assert_eq!(
        wasi_dispatcher().dispatch_native("fs-read", NativeHost::Provider).ok(),
        Some(DispatchTarget::Component(0))
    );
}

#[test]
fn empty_dispatcher_lists_nothing() {
    let d = ComponentDispatcher::new(vec![]);
    assert_eq!(d.all_components(), "");
    assert_eq!(d.dispatch("a").err().unwrap().available, "");
}

#[test]
fn native_modules_report_their_signatures() {
    let s = network_signature();
    assert_eq!(s.name.as_deref(), Some("test-main-network-component"));
    assert!(s.features.is_none());
    assert_eq!(s.format, 1);
    assert_eq!(s.version, "0.0.1");
    assert!(s.types.is_empty() && s.wellknown.is_empty() && s.config.is_empty());
    let names: Vec<&str> = s.components.iter().map(|c| c.name.as_str()).collect();
    assert_eq!(names, vec!["byte-count", "main"]);
    assert_eq!(s.components[0].inputs, vec![("input", "string")]);
    assert_eq!(s.components[0].outputs, vec![("output", "u64")]);
    assert_eq!(s.components[1].inputs, vec![("argv", "[string]"), ("network", "link")]);
    assert_eq!(s.components[1].outputs, vec![("code", "u32")]);

    let w = wasi_signature();
    assert_eq!(w.components.len(), 1);
    assert_eq!(w.components[0].name, "fs-read");
    assert_eq!(w.components[0].inputs, vec![("filename", "string")]);
    assert_eq!(w.components[0].outputs, vec![("contents", "string")]);

    let c = wasm_signature();
    assert_eq!(c.name.as_deref(), Some("test-component"));
    let f = c.features.as_ref().unwrap();
    assert!(!f.streaming && !f.stateful && f.version == 0);
    assert_eq!(c.types.len(), 1);
    assert_eq!(c.types[0].name, "Unit");
    assert_eq!(c.types[0].values, vec![("0".to_owned(), 0), ("1".to_owned(), 1)]);
    let names: Vec<&str> = c.components.iter().map(|c| c.name.as_str()).collect();
    assert_eq!(names, vec!["error", "reverse", "reverse-uppercase", "scratch", "uppercase", "validate"]);
    assert_eq!(c.components[3].outputs, vec![("message", "string"), ("age", "i64")]);
}
