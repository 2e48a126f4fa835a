use wapc::state::{Invocation, ModuleIds, ModuleState, WapcFunctions, WasiParams, HOST_NAMESPACE};

fn echo_state(id: u64) -> ModuleState<impl Fn(u64, &str, &str, &str, &[u8]) -> Result<Vec<u8>, String>> {
    ModuleState::new(
        |id: u64, bd: &str, ns: &str, op: &str, payload: &[u8]| -> Result<Vec<u8>, String> {
            if op == "fail" {
                Err(format!("failed {} {} {}", id, bd, ns))
            } else {
                let mut v = payload.to_vec();
                v.reverse();
                Ok(v)
            }
        },
        id,
    )
}

#[test]
fn constants_name_the_protocol_functions() {
    assert_eq!(HOST_NAMESPACE, "wapc");
    assert_eq!(WapcFunctions::HOST_CALL, "__host_call");
    assert_eq!(WapcFunctions::GUEST_CALL, "__guest_call");
    assert_eq!(WapcFunctions::REQUIRED_STARTS, ["_start", "wapc_init"]);
}

#[test]
fn wasi_params_keep_their_fields() {
    let p = WasiParams::new(
        vec!["prog".to_owned()],
        vec![("a".to_owned(), "b".to_owned())],
        vec![("K".to_owned(), "V".to_owned())],
        vec!["/tmp".to_owned()],
    );
    assert_eq!(p.argv, vec!["prog".to_owned()]);
    assert_eq!(p.map_dirs, vec![("a".to_owned(), "b".to_owned())]);
    assert_eq!(p.env_vars, vec![("K".to_owned(), "V".to_owned())]);
    assert_eq!(p.preopened_dirs, vec!["/tmp".to_owned()]);
    let d = WasiParams::default();
    assert!(d.argv.is_empty() && d.map_dirs.is_empty() && d.env_vars.is_empty() && d.preopened_dirs.is_empty());
}

#[test]
fn new_state_is_empty() {
    let s = echo_state(7);
    assert_eq!(s.id(), 7);
    assert!(s.get_guest_request().is_none());
    assert!(s.get_host_response().is_none());
    assert!(s.get_guest_response().is_none());
    assert!(s.get_host_error().is_none());
    assert!(s.get_guest_error().is_none());
}

#[test]
fn setters_record_guest_outcome() {
    let mut s = echo_state(1);
    s.set_guest_response(vec![1, 2, 3]);
    s.set_guest_error("boom".to_owned());
    assert_eq!(s.get_guest_response(), Some(vec![1, 2, 3]));
    assert_eq!(s.get_guest_error(), Some("boom".to_owned()));
}

#[test]
fn host_call_success_sets_response_only() {
    let mut s = echo_state(3);
    let code = s.do_host_call("bd", "ns", "op", &[1, 2, 3]).unwrap();
    assert_eq!(code, 1);
    assert_eq!(s.get_host_response(), Some(vec![3, 2, 1]));
    assert!(s.get_host_error().is_none());
}

#[test]
fn host_call_failure_sets_error_only() {
    let mut s = echo_state(3);
    s.do_host_call("bd", "ns", "op", &[9]).unwrap();
    let code = s.do_host_call("bd", "ns", "fail", &[1]).unwrap();
    assert_eq!(code, 0);
    assert_eq!(s.get_host_error(), Some("failed 3 bd ns".to_owned()));
    assert!(s.get_host_response().is_none());
}

#[test]
fn host_call_without_callback_fails() {
    type Cb = fn(u64, &str, &str, &str, &[u8]) -> Result<Vec<u8>, String>;
    let mut s: ModuleState<Cb> = ModuleState::default();
    let code = s.do_host_call("a", "b", "c", &[]).unwrap();
    assert_eq!(code, 0);
    assert_eq!(s.get_host_error(), Some("Missing host callback function!".to_owned()));
}

#[test]
fn replacing_the_callback_takes_effect() {
    type Cb = fn(u64, &str, &str, &str, &[u8]) -> Result<Vec<u8>, String>;
    fn answer(_: u64, _: &str, _: &str, _: &str, _: &[u8]) -> Result<Vec<u8>, String> {
        Ok(b"42".to_vec())
    }
    let mut s: ModuleState<Cb> = ModuleState::default();
    s.set_host_callback(answer);
    assert_eq!(s.do_host_call("a", "b", "c", &[]).unwrap(), 1);
    assert_eq!(s.get_host_response(), Some(b"42".to_vec()));
}

#[test]
fn record_host_result_is_exclusive() {
    let mut s = echo_state(0);
    assert_eq!(s.record_host_result(Ok(vec![5])), 1);
    assert_eq!(s.get_host_response(), Some(vec![5]));
    assert_eq!(s.record_host_result(Err("no".to_owned())), 0);
    assert!(s.get_host_response().is_none());
    assert_eq!(s.get_host_error(), Some("no".to_owned()));
}

#[test]
fn begin_call_clears_previous_outcomes() {
    let mut s = echo_state(0);
    s.set_guest_response(vec![1]);
    s.set_guest_error("old".to_owned());
    s.record_host_result(Ok(vec![2]));
    s.begin_call(Invocation::new("op", vec![9, 9]));
    let req = s.get_guest_request().unwrap();
    assert_eq!(req.operation, "op");
    assert_eq!(req.msg, vec![9, 9]);
    assert!(s.get_guest_response().is_none());
    assert!(s.get_guest_error().is_none());
    assert!(s.get_host_response().is_none());
    assert!(s.get_host_error().is_none());
}

#[test]
fn invocation_new_and_clone() {
    let i = Invocation::new("hello", vec![1, 2]);
    let j = i.clone();
    assert_eq!(j.operation, "hello");
    assert_eq!(j.msg, vec![1, 2]);
}

#[test]
fn module_ids_count_up_from_one() {
    let mut ids = ModuleIds::new();
    assert_eq!(ids.take(), 1);
    assert_eq!(ids.take(), 2);
    assert_eq!(ids.take(), 3);
}
