use wapc::memory::{
    console_log, get_vec_from_memory, guest_error, guest_request, guest_response, host_call, host_error,
    host_error_len, host_response, host_response_len, write_bytes_to_memory,
};
use wapc::state::{Invocation, ModuleState};

type Cb = fn(u64, &str, &str, &str, &[u8]) -> Result<Vec<u8>, String>;

fn cb(id: u64, bd: &str, ns: &str, op: &str, payload: &[u8]) -> Result<Vec<u8>, String> {
    if op == "fail" {
        Err(format!("{}:{}:{}", id, bd, ns))
    } else {
        Ok([op.as_bytes(), payload].concat())
    }
}

#[test]
fn read_after_write_gives_bytes_back() {
    let mut mem = vec![0u8; 16];
    write_bytes_to_memory(&mut mem, 4, b"wapc");
    assert_eq!(get_vec_from_memory(&mem, 4, 4), b"wapc".to_vec());
    assert_eq!(&mem[..4], &[0, 0, 0, 0]);
    assert_eq!(&mem[8..], &[0; 8]);
}

#[test]
fn read_of_empty_region() {
    let mem = vec![1u8, 2, 3];
    assert!(get_vec_from_memory(&mem, 3, 0).is_empty());
}

#[test]
fn guest_request_writes_payload_and_operation() {
    let mut s = ModuleState::new(cb as Cb, 1);
    s.begin_call(Invocation::new("op", b"payload".to_vec()));
    let mut mem = vec![0u8; 32];
    guest_request(&mut mem, &s, 20, 0);
    assert_eq!(get_vec_from_memory(&mem, 0, 7), b"payload".to_vec());
    assert_eq!(get_vec_from_memory(&mem, 20, 2), b"op".to_vec());
}

#[test]
fn guest_request_without_request_leaves_memory() {
    let s = ModuleState::new(cb as Cb, 1);
    let mut mem = vec![7u8; 4];
    guest_request(&mut mem, &s, 0, 0);
    assert_eq!(mem, vec![7u8; 4]);
}

#[test]
fn console_log_decodes_message() {
    let mut mem = vec![0u8; 16];
    write_bytes_to_memory(&mut mem, 2, "héllo".as_bytes());
    assert_eq!(console_log(&mem, 2, 6), "héllo");
}

#[test]
fn host_call_round_trip_through_memory() {
    let mut s = ModuleState::new(cb as Cb, 9);
    let mut mem = vec![0u8; 64];
    write_bytes_to_memory(&mut mem, 0, b"bind");
    write_bytes_to_memory(&mut mem, 4, b"ns");
    write_bytes_to_memory(&mut mem, 6, b"op");
    write_bytes_to_memory(&mut mem, 8, b"xyz");
    let code = host_call(&mem, &mut s, 0, 4, 4, 2, 6, 2, 8, 3);
    assert_eq!(code, 1);
    assert_eq!(host_response_len(&s), 5);
    assert_eq!(host_error_len(&s), 0);
    host_response(&mut mem, &s, 32);
    assert_eq!(get_vec_from_memory(&mem, 32, 5), b"opxyz".to_vec());
}

#[test]
fn host_call_error_through_memory() {
    let mut s = ModuleState::new(cb as Cb, 9);
    let mut mem = vec![0u8; 64];
    write_bytes_to_memory(&mut mem, 0, b"b");
    write_bytes_to_memory(&mut mem, 1, b"n");
    write_bytes_to_memory(&mut mem, 2, b"fail");
    let code = host_call(&mem, &mut s, 0, 1, 1, 1, 2, 4, 6, 0);
    assert_eq!(code, 0);
    assert_eq!(host_response_len(&s), 0);
    assert_eq!(host_error_len(&s), 5);
    host_error(&mut mem, &s, 40);
    assert_eq!(get_vec_from_memory(&mem, 40, 5), b"9:b:n".to_vec());
}

#[test]
fn host_response_without_response_leaves_memory() {
    let s = ModuleState::new(cb as Cb, 0);
    let mut mem = vec![3u8; 4];
    host_response(&mut mem, &s, 0);
    host_error(&mut mem, &s, 0);
    assert_eq!(mem, vec![3u8; 4]);
}

#[test]
fn guest_response_and_error_are_recorded() {
    let mut s = ModuleState::new(cb as Cb, 0);
    let mut mem = vec![0u8; 16];
    write_bytes_to_memory(&mut mem, 0, b"done");
    write_bytes_to_memory(&mut mem, 8, b"oops");
    guest_response(&mem, &mut s, 0, 4);
    guest_error(&mem, &mut s, 8, 4);
    assert_eq!(s.get_guest_response(), Some(b"done".to_vec()));
    assert_eq!(s.get_guest_error(), Some("oops".to_owned()));
}
