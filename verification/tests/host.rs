use wapc::errors::ErrorKind;
use wapc::host::{call_result, guest_call_reply, init_failure, replace_failure, GuestReply, ModuleHost, WapcHost, WebAssemblyEngineProvider};
use wapc::state::{Invocation, ModuleState};

/// A stand-in for a WebAssembly engine: it runs a guest that calls the host
/// with the request payload and answers with what the host returned.
struct EchoGuest {
    fail_init: bool,
    trap: bool,
}

impl<F: Fn(u64, &str, &str, &str, &[u8]) -> Result<Vec<u8>, String>> WebAssemblyEngineProvider<F> for EchoGuest {
    fn init(&mut self, _host: &mut ModuleState<F>) -> Result<(), String> {
        if self.fail_init {
            Err("no memory export".to_owned())
        } else {
            Ok(())
        }
    }

    fn call(&mut self, host: &mut ModuleState<F>, op_length: i32, msg_length: i32) -> Result<i32, String> {
        if self.trap {
            return Err("trap".to_owned());
        }
        let inv = host.get_guest_request().unwrap();
        if inv.operation == "error" {
            host.set_guest_error("guest said no".to_owned());
            return Ok(0);
        }
        if inv.operation.starts_with("len") {
            host.set_guest_response(vec![op_length as u8, msg_length as u8]);
            return Ok(1);
        }
        if inv.operation == "silent" {
            return Ok(1);
        }
        let code = host.do_host_call("binding", "ns", &inv.operation, &inv.msg).unwrap();
        if code == 1 {
            host.set_guest_response(host.get_host_response().unwrap());
            Ok(1)
        } else {
            host.set_guest_error(host.get_host_error().unwrap());
            Ok(0)
        }
    }

    fn replace(&mut self, _host: &mut ModuleState<F>, bytes: &[u8]) -> Result<(), String> {
        if bytes.is_empty() {
            Err("empty module".to_owned())
        } else {
            Ok(())
        }
    }
}

fn engine() -> EchoGuest {
    EchoGuest { fail_init: false, trap: false }
}

fn callback(id: u64, _bd: &str, _ns: &str, op: &str, payload: &[u8]) -> Result<Vec<u8>, String> {
    if op == "deny" {
        Err(format!("denied for {}", id))
    } else {
        let mut v = b"hello ".to_vec();
        v.extend_from_slice(payload);
        Ok(v)
    }
}

type Cb = fn(u64, &str, &str, &str, &[u8]) -> Result<Vec<u8>, String>;

fn message(e: &wapc::errors::Error) -> String {
    match &e.kind {
        ErrorKind::GuestCallFailure(s) => s.clone(),
    }
}

#[test]
fn call_returns_guest_response() {
    let mut host = WapcHost::new(engine(), callback as Cb, 11).0.unwrap();
    assert_eq!(host.id(), 11);
    let out = host.call("wapc:sample!Hello", b"this is a test").unwrap();
    assert_eq!(out, b"hello this is a test".to_vec());
}

#[test]
fn call_hands_engine_byte_lengths() {
    let mut host = WapcHost::new(engine(), callback as Cb, 1).0.unwrap();
    // "lenä" is five bytes in UTF-8.
    assert_eq!(host.call("lenä", b"abc").unwrap(), vec![5, 3]);
}

#[test]
fn call_reports_host_error_through_guest() {
    let mut host = WapcHost::new(engine(), callback as Cb, 5).0.unwrap();
    let err = host.call("deny", b"x").unwrap_err();
    assert_eq!(message(&err), "denied for 5");
}

#[test]
fn call_reports_guest_error() {
    let mut host = WapcHost::new(engine(), callback as Cb, 5).0.unwrap();
    let err = host.call("error", b"").unwrap_err();
    assert_eq!(message(&err), "guest said no");
}

#[test]
fn call_without_response_or_error() {
    let mut host = WapcHost::new(engine(), callback as Cb, 5).0.unwrap();
    let err = host.call("silent", b"").unwrap_err();
    assert_eq!(message(&err), "No error message OR response set for call success");
}

#[test]
fn call_reports_engine_failure() {
    let mut e = engine();
    e.trap = true;
    let mut host = WapcHost::new(e, callback as Cb, 5).0.unwrap();
    let err = host.call("x", b"").unwrap_err();
    assert_eq!(message(&err), "trap");
}

#[test]
fn second_call_does_not_see_first_outcome() {
    let mut host = WapcHost::new(engine(), callback as Cb, 2).0.unwrap();
    host.call("error", b"").unwrap_err();
    let out = host.call("ok", b"again").unwrap();
    assert_eq!(out, b"hello again".to_vec());
    assert!(host.state().get_guest_error().is_none());
}

#[test]
fn new_reports_init_failure() {
    let mut e = engine();
    e.fail_init = true;
    let err = WapcHost::new(e, callback as Cb, 1).0.err().unwrap();
    assert_eq!(message(&err), "Failed to initialize guest module: no memory export");
}

#[test]
fn replace_module_reports_failure() {
    let mut host = WapcHost::new(engine(), callback as Cb, 1).0.unwrap();
    assert!(host.replace_module(b"\0asm").is_ok());
    let err = host.replace_module(b"").unwrap_err();
    assert_eq!(message(&err), "Failed to swap module bytes: empty module");
}

#[test]
fn set_callback_replaces_host_function() {
    fn other(_: u64, _: &str, _: &str, _: &str, _: &[u8]) -> Result<Vec<u8>, String> {
        Ok(b"other".to_vec())
    }
    let mut host = WapcHost::new(engine(), callback as Cb, 1).0.unwrap();
    host.set_callback(other as Cb);
    assert_eq!(host.call("x", b"").unwrap(), b"other".to_vec());
}

#[test]
fn call_result_decides_from_status_and_state() {
    let mut s = ModuleState::new(callback as Cb, 0);
    assert_eq!(message(&call_result(0, &s).unwrap_err()), "No error message set for call failure");
    s.set_guest_response(vec![1]);
    assert_eq!(call_result(1, &s).unwrap(), vec![1]);
    s.set_guest_error("bad".to_owned());
    assert_eq!(message(&call_result(0, &s).unwrap_err()), "bad");
    assert_eq!(call_result(1, &s).unwrap(), vec![1]);
}

#[test]
fn failure_messages_have_prefixes() {
    assert_eq!(message(&init_failure("x".to_owned())), "Failed to initialize guest module: x");
    assert_eq!(message(&replace_failure("y".to_owned())), "Failed to swap module bytes: y");
}

#[test]
fn guest_reply_codes() {
    let r = guest_call_reply(Ok(vec![1, 2]));
    assert_eq!(r.code(), 1);
    assert!(matches!(r, GuestReply::Response(ref v) if v == &vec![1, 2]));
    let e = guest_call_reply(Err("nope".to_owned()));
    assert_eq!(e.code(), 0);
    assert!(matches!(e, GuestReply::Error(ref m) if m == "nope"));
}

#[test]
fn guest_reply_reaches_host() {
    let mut s = ModuleState::new(callback as Cb, 0);
    s.begin_call(Invocation::new("op", vec![]));
    if let GuestReply::Response(v) = guest_call_reply(Ok(vec![7])) {
        s.set_guest_response(v);
    }
    assert_eq!(call_result(1, &s).unwrap(), vec![7]);
}

#[test]
fn module_host_trait_forwards() {
    let mut s = ModuleState::new(callback as Cb, 4);
    let code = ModuleHost::do_host_call(&mut s, "b", "n", "deny", &[]).unwrap();
    assert_eq!(code, 0);
    assert_eq!(ModuleHost::get_host_error(&s), Some("denied for 4".to_owned()));
    ModuleHost::set_guest_response(&mut s, vec![3]);
    assert_eq!(s.get_guest_response(), Some(vec![3]));
}

#[test]
fn trapped_guest_call_records_the_trap() {
    let mut s: ModuleState<Cb> = ModuleState::new(callback as Cb, 3);
    assert_eq!(wapc::host::guest_call_status(&mut s, Ok(1)), 1);
    assert_eq!(s.get_guest_error(), None);
    assert_eq!(wapc::host::guest_call_status(&mut s, Err("unreachable".to_owned())), 0);
    assert_eq!(s.get_guest_error(), Some("unreachable".to_owned()));
}
