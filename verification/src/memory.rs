use vstd::prelude::*;
use vstd::utf8::{decode_utf8, encode_utf8, valid_utf8};

use crate::host::wasm_len;
use crate::state::{ModuleState, ModuleStateView};

verus! {

/// Whether `len` bytes at `ptr` lie inside a linear memory of `mem_len`
/// bytes, with the end offset representable as a 32-bit integer.
pub open spec fn readable(mem_len: nat, ptr: i32, len: i32) -> bool {
    &&& 0 <= ptr
    &&& 0 <= len
    &&& ptr + len <= mem_len
    &&& ptr + len <= i32::MAX
}

/// Whether `len` bytes can be written at `ptr` into a linear memory of `mem_len` bytes.
pub open spec fn writable(mem_len: nat, ptr: i32, len: nat) -> bool {
    &&& 0 <= ptr
    &&& ptr + len <= mem_len
}

/// The `len` bytes at `ptr` of a linear memory.
pub open spec fn read_region(mem: Seq<u8>, ptr: i32, len: i32) -> Seq<u8> {
    mem.subrange(ptr as int, ptr + len)
}

/// A linear memory after `bytes` were written at `ptr`.
pub open spec fn write_region(mem: Seq<u8>, ptr: i32, bytes: Seq<u8>) -> Seq<u8> {
    mem.take(ptr as int) + bytes + mem.skip(ptr + bytes.len())
}

/// Copies the `len` bytes at `ptr` out of the guest's linear memory.
pub fn get_vec_from_memory(mem: &[u8], ptr: i32, len: i32) -> (v: Vec<u8>)
    requires
        readable(mem@.len(), ptr, len),
    ensures
        v@ == read_region(mem@, ptr, len),
        v@.len() == len,
        forall|i: int| 0 <= i < len ==> #[trigger] v@[i] == mem@[ptr + i],
{
    let start = ptr as usize;
    let end = (ptr + len) as usize;
    let mut v: Vec<u8> = Vec::new();
    let mut i = start;
    while i < end
        invariant
            start <= i <= end,
            end <= mem@.len(),
            start == ptr,
            end == ptr + len,
            v@ == mem@.subrange(start as int, i as int),
        decreases end - i,
    {
        v.push(mem[i]);
        i = i + 1;
        assert(v@ =~= mem@.subrange(start as int, i as int));
    }
    v
}

/// Writes `bytes` into the guest's linear memory at `ptr`.
pub fn write_bytes_to_memory(mem: &mut [u8], ptr: i32, bytes: &[u8])
    requires
        writable(old(mem)@.len(), ptr, bytes@.len()),
    ensures
        final(mem)@ == write_region(old(mem)@, ptr, bytes@),
        final(mem)@.len() == old(mem)@.len(),
        forall|i: int| 0 <= i < bytes@.len() ==> #[trigger] final(mem)@[ptr + i] == bytes@[i],
        forall|j: int| 0 <= j < old(mem)@.len() && !(ptr <= j < ptr + bytes@.len()) ==> #[trigger] final(mem)@[j] == old(mem)@[j],
{
    let start = ptr as usize;
    let n = bytes.len();
    let mem_len = mem.len();
    let mut i: usize = 0;
    while i < n
        invariant
            0 <= start,
            start == ptr,
            n == bytes@.len(),
            start + n <= mem@.len(),
            mem_len == mem@.len(),
            i <= n,
            mem@.len() == old(mem)@.len(),
            forall|j: int| 0 <= j < start ==> mem@[j] == old(mem)@[j],
            forall|j: int| start <= j < start + i ==> mem@[j] == bytes@[j - start],
            forall|j: int| start + i <= j < mem@.len() ==> mem@[j] == old(mem)@[j],
        decreases n - i,
    {
        mem[start + i] = bytes[i];
        i = i + 1;
    }
    assert(mem@ =~= write_region(old(mem)@, ptr, bytes@));
}

} // verus!

verus! {

/// Handles `__guest_request`: writes the payload of the current request at
/// `ptr` and then the operation name (UTF-8) at `op_ptr`. Without a
/// request, memory is left as it is.
pub fn guest_request<F>(mem: &mut [u8], state: &ModuleState<F>, op_ptr: i32, ptr: i32)
    requires
        state@.guest_request matches Some(inv) ==> {
            &&& writable(old(mem)@.len(), ptr, inv.1.len())
            &&& writable(old(mem)@.len(), op_ptr, encode_utf8(inv.0).len())
        },
    ensures
        final(mem)@ == match state@.guest_request {
            Some(inv) => write_region(write_region(old(mem)@, ptr, inv.1), op_ptr, encode_utf8(inv.0)),
            None => old(mem)@,
        },
{
    match state.get_guest_request() {
        Some(inv) => {
            write_bytes_to_memory(mem, ptr, inv.msg.as_slice());
            write_bytes_to_memory(mem, op_ptr, inv.operation.as_str().as_bytes());
        },
        None => {},
    }
}

/// Handles `__console_log`: the UTF-8 message of `len` bytes at `ptr`,
/// for the host to print.
pub fn console_log(mem: &[u8], ptr: i32, len: i32) -> (msg: String)
    requires
        readable(mem@.len(), ptr, len),
        valid_utf8(read_region(mem@, ptr, len)),
    ensures
        msg@ == decode_utf8(read_region(mem@, ptr, len)),
{
    let v = get_vec_from_memory(mem, ptr, len);
    match crate::text::string_from_utf8(v) {
        Some(s) => s,
        None => String::new(),
    }
}

/// Reads a UTF-8 string of `len` bytes at `ptr`.
fn read_string(mem: &[u8], ptr: i32, len: i32) -> (s: String)
    requires
        readable(mem@.len(), ptr, len),
        valid_utf8(read_region(mem@, ptr, len)),
    ensures
        s@ == decode_utf8(read_region(mem@, ptr, len)),
{
    let v = get_vec_from_memory(mem, ptr, len);
    match crate::text::string_from_utf8(v) {
        Some(s) => s,
        None => String::new(),
    }
}

/// Handles `__host_call`: reads the binding, namespace and operation names
/// (UTF-8) and the payload from memory, performs the host call and returns
/// its status code (1 when a host response is set, 0 when a host error is).
pub fn host_call<F: Fn(u64, &str, &str, &str, &[u8]) -> Result<Vec<u8>, String>>(
    mem: &[u8],
    state: &mut ModuleState<F>,
    bd_ptr: i32,
    bd_len: i32,
    ns_ptr: i32,
    ns_len: i32,
    op_ptr: i32,
    op_len: i32,
    ptr: i32,
    len: i32,
) -> (code: i32)
    requires
        readable(mem@.len(), bd_ptr, bd_len),
        readable(mem@.len(), ns_ptr, ns_len),
        readable(mem@.len(), op_ptr, op_len),
        readable(mem@.len(), ptr, len),
        valid_utf8(read_region(mem@, bd_ptr, bd_len)),
        valid_utf8(read_region(mem@, ns_ptr, ns_len)),
        valid_utf8(read_region(mem@, op_ptr, op_len)),
        old(state).callback() matches Some(f) ==> forall|b: &str, n: &str, o: &str, p: &[u8]|
            b@ == decode_utf8(read_region(mem@, bd_ptr, bd_len)) && n@ == decode_utf8(read_region(mem@, ns_ptr, ns_len))
                && o@ == decode_utf8(read_region(mem@, op_ptr, op_len)) && p@ == read_region(mem@, ptr, len)
                ==> #[trigger] call_requires(f, (old(state)@.id, b, n, o, p)),
    ensures
        final(state).callback() == old(state).callback(),
        old(state).callback() is None ==> {
            &&& final(state)@ == old(state)@.after_host_result(Err(crate::state::missing_callback_message()))
            &&& code == 0
        },
        old(state).callback() matches Some(f) ==> exists|b: &str, n: &str, o: &str, p: &[u8], r: Result<Vec<u8>, String>| {
            &&& b@ == decode_utf8(read_region(mem@, bd_ptr, bd_len))
            &&& n@ == decode_utf8(read_region(mem@, ns_ptr, ns_len))
            &&& o@ == decode_utf8(read_region(mem@, op_ptr, op_len))
            &&& p@ == read_region(mem@, ptr, len)
            &&& call_ensures(f, (old(state)@.id, b, n, o, p), r)
            &&& final(state)@ == old(state)@.after_host_result(crate::state::host_result_view(r))
            &&& code == crate::state::host_call_code(crate::state::host_result_view(r))
        },
{
    let payload = get_vec_from_memory(mem, ptr, len);
    let bd = read_string(mem, bd_ptr, bd_len);
    let ns = read_string(mem, ns_ptr, ns_len);
    let op = read_string(mem, op_ptr, op_len);
    let res = state.do_host_call(bd.as_str(), ns.as_str(), op.as_str(), payload.as_slice());
    match res {
        Ok(c) => c,
        Err(_) => 0,
    }
}

/// Handles `__host_response`: writes the current host response, if any, at `ptr`.
pub fn host_response<F>(mem: &mut [u8], state: &ModuleState<F>, ptr: i32)
    requires
        state@.host_response matches Some(v) ==> writable(old(mem)@.len(), ptr, v.len()),
    ensures
        final(mem)@ == match state@.host_response {
            Some(v) => write_region(old(mem)@, ptr, v),
            None => old(mem)@,
        },
{
    match state.get_host_response() {
        Some(v) => write_bytes_to_memory(mem, ptr, v.as_slice()),
        None => {},
    }
}

/// Handles `__host_response_len`: the length of the current host response, or 0.
pub fn host_response_len<F>(state: &ModuleState<F>) -> (n: i32)
    ensures
        n == match state@.host_response {
            Some(v) => wasm_len(v.len()),
            None => 0,
        },
{
    match state.get_host_response() {
        Some(v) => #[verifier::truncate] (v.len() as i32),
        None => 0,
    }
}

/// Handles `__guest_response`: records the `len` bytes at `ptr` as the guest response.
pub fn guest_response<F>(mem: &[u8], state: &mut ModuleState<F>, ptr: i32, len: i32)
    requires
        readable(mem@.len(), ptr, len),
    ensures
        final(state)@ == (ModuleStateView { guest_response: Some(read_region(mem@, ptr, len)), ..old(state)@ }),
        final(state).callback() == old(state).callback(),
{
    let v = get_vec_from_memory(mem, ptr, len);
    state.set_guest_response(v);
}

/// Handles `__guest_error`: records the UTF-8 message of `len` bytes at
/// `ptr` as the guest error.
pub fn guest_error<F>(mem: &[u8], state: &mut ModuleState<F>, ptr: i32, len: i32)
    requires
        readable(mem@.len(), ptr, len),
        valid_utf8(read_region(mem@, ptr, len)),
    ensures
        final(state)@ == (ModuleStateView {
            guest_error: Some(decode_utf8(read_region(mem@, ptr, len))),
            ..old(state)@
        }),
        final(state).callback() == old(state).callback(),
{
    let s = read_string(mem, ptr, len);
    state.set_guest_error(s);
}

/// Handles `__host_error`: writes the current host error (UTF-8), if any, at `ptr`.
pub fn host_error<F>(mem: &mut [u8], state: &ModuleState<F>, ptr: i32)
    requires
        state@.host_error matches Some(e) ==> writable(old(mem)@.len(), ptr, encode_utf8(e).len()),
    ensures
        final(mem)@ == match state@.host_error {
            Some(e) => write_region(old(mem)@, ptr, encode_utf8(e)),
            None => old(mem)@,
        },
{
    match state.get_host_error() {
        Some(e) => write_bytes_to_memory(mem, ptr, e.as_str().as_bytes()),
        None => {},
    }
}

/// Handles `__host_error_len`: the length in UTF-8 bytes of the current host error, or 0.
pub fn host_error_len<F>(state: &ModuleState<F>) -> (n: i32)
    ensures
        n == match state@.host_error {
            Some(e) => wasm_len(encode_utf8(e).len()),
            None => 0,
        },
{
    match state.get_host_error() {
        Some(e) => #[verifier::truncate] (e.as_str().len() as i32),
        None => 0,
    }
}

} // verus!

verus! {

/// Reading `len` bytes at `ptr` gives the bytes of memory from `ptr` on, in
/// their order: the `i`-th byte read is the byte at `ptr + i`.
pub proof fn lemma_read_region_bytes(mem: Seq<u8>, ptr: i32, len: i32)
    requires
        readable(mem.len(), ptr, len),
    ensures
        read_region(mem, ptr, len).len() == len,
        forall|i: int| 0 <= i < len ==> #[trigger] read_region(mem, ptr, len)[i] == mem[ptr + i],
{
}

/// Writing `bytes` at `ptr` puts the `i`-th byte at `ptr + i`, in their
/// order, and leaves every other byte of memory as it was.
pub proof fn lemma_write_region_bytes(mem: Seq<u8>, ptr: i32, bytes: Seq<u8>)
    requires
        writable(mem.len(), ptr, bytes.len()),
    ensures
        write_region(mem, ptr, bytes).len() == mem.len(),
        forall|i: int| 0 <= i < bytes.len() ==> #[trigger] write_region(mem, ptr, bytes)[ptr + i] == bytes[i],
        forall|j: int|
            0 <= j < mem.len() && !(ptr <= j < ptr + bytes.len()) ==> #[trigger] write_region(mem, ptr, bytes)[j] == mem[j],
{
}

/// Reading back the bytes just written at `ptr` gives those bytes.
pub proof fn lemma_read_after_write(mem: Seq<u8>, ptr: i32, bytes: Seq<u8>)
    requires
        writable(mem.len(), ptr, bytes.len()),
        ptr + bytes.len() <= i32::MAX,
    ensures
        write_region(mem, ptr, bytes).len() == mem.len(),
        read_region(write_region(mem, ptr, bytes), ptr, bytes.len() as i32) == bytes,
{
    assert(read_region(write_region(mem, ptr, bytes), ptr, bytes.len() as i32) =~= bytes);
}

/// Writing at `ptr` leaves every region that does not overlap the write unchanged.
pub proof fn lemma_write_keeps_disjoint(mem: Seq<u8>, ptr: i32, bytes: Seq<u8>, other: i32, len: i32)
    requires
        writable(mem.len(), ptr, bytes.len()),
        readable(mem.len(), other, len),
        other + len <= ptr || ptr + bytes.len() <= other,
    ensures
        read_region(write_region(mem, ptr, bytes), other, len) == read_region(mem, other, len),
{
    assert(read_region(write_region(mem, ptr, bytes), other, len) =~= read_region(mem, other, len));
}

/// After `__guest_request`, a guest that reserved two separate regions finds
/// the request payload at `ptr` and the operation name at `op_ptr`.
pub proof fn lemma_guest_request_readable(mem: Seq<u8>, inv: (Seq<char>, Seq<u8>), op_ptr: i32, ptr: i32)
    requires
        writable(mem.len(), ptr, inv.1.len()),
        writable(mem.len(), op_ptr, encode_utf8(inv.0).len()),
        ptr + inv.1.len() <= i32::MAX,
        op_ptr + encode_utf8(inv.0).len() <= i32::MAX,
        op_ptr + encode_utf8(inv.0).len() <= ptr || ptr + inv.1.len() <= op_ptr,
    ensures
        ({
            let after = write_region(write_region(mem, ptr, inv.1), op_ptr, encode_utf8(inv.0));
            &&& read_region(after, ptr, inv.1.len() as i32) == inv.1
            &&& read_region(after, op_ptr, encode_utf8(inv.0).len() as i32) == encode_utf8(inv.0)
        }),
{
    let mid = write_region(mem, ptr, inv.1);
    lemma_read_after_write(mem, ptr, inv.1);
    lemma_read_after_write(mid, op_ptr, encode_utf8(inv.0));
    lemma_write_keeps_disjoint(mid, op_ptr, encode_utf8(inv.0), ptr, inv.1.len() as i32);
}

/// After a host call, the length the guest is told and the bytes it reads
/// back are those of the one outcome that was recorded: the response on
/// success, the error message (UTF-8) on failure; the other is absent.
pub proof fn lemma_host_call_outcome_readable(s: ModuleStateView, r: Result<Seq<u8>, Seq<char>>)
    ensures
        ({
            let t = s.after_host_result(r);
            match r {
                Ok(v) => t.host_response == Some(v) && t.host_error is None,
                Err(m) => t.host_error == Some(m) && t.host_response is None,
            }
        }),
        crate::state::host_call_code(r) == 1 <==> s.after_host_result(r).host_response is Some,
        crate::state::host_call_code(r) == 0 <==> s.after_host_result(r).host_error is Some,
{
}

} // verus!
