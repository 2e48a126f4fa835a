use vstd::prelude::*;

use crate::interfaces::{
    lemma_port_types_distinct, read_ports, InputValue, InputError, InputMap, PortList, error_matches, i32_field, input_map_view, port_list_view, read_i32_input,
};

verus! {

/// The inputs of the `list_users` operation.
pub struct Inputs {
    pub offset: i32,
    pub limit: i32,
}

impl Inputs {
    /// The inputs in the order of the ports, as plain values.
    pub open spec fn values(&self) -> Seq<InputValue> {
        seq![InputValue::Int(self.offset), InputValue::Int(self.limit)]
    }
}

/// The inputs of the `list_users` operation, each still encoded.
pub struct InputEncoded {
    pub offset: Vec<u8>,
    pub limit: Vec<u8>,
}

/// The input ports of the `list_users` operation with their types.
pub open spec fn spec_inputs_list() -> Seq<(Seq<char>, Seq<char>)> {
    seq![("offset"@, "i32"@), ("limit"@, "i32"@)]
}

/// The input ports of the `list_users` operation with their types.
pub fn inputs_list() -> (r: PortList)
    ensures
        port_list_view(r) == spec_inputs_list(),
        port_list_view(r) == seq![("offset"@, "i32"@), ("limit"@, "i32"@)],
{
    let r: PortList = vec![("offset", "i32"), ("limit", "i32")];
    assert(port_list_view(r) =~= spec_inputs_list());
    r
}

/// The output ports of the `list_users` operation with their types.
pub open spec fn spec_outputs_list() -> Seq<(Seq<char>, Seq<char>)> {
    seq![("users"@, "{string:string"@)]
}

/// The output ports of the `list_users` operation with their types.
pub fn outputs_list() -> (r: PortList)
    ensures
        port_list_view(r) == spec_outputs_list(),
        port_list_view(r) == seq![("users"@, "{string:string"@)],
{
    let r: PortList = vec![("users", "{string:string")];
    assert(port_list_view(r) =~= spec_outputs_list());
    r
}

/// Reads and decodes the inputs of the `list_users` operation from `map`, in the
/// order of the ports. Fails at the first input that is missing or does
/// not decode, with the error for that input.
pub fn deserialize_inputs(map: &InputMap) -> (r: Result<Inputs, InputError>)
    ensures
        match read_ports(input_map_view(*map), spec_inputs_list()) {
            Ok(vs) => (r matches Ok(inp) && inp.values() == vs),
            Err(fail) => (r matches Err(e) && error_matches(e, fail.0, fail.1)),
        },
        match i32_field(input_map_view(*map), "offset"@) {
            Err(fl) => (r matches Err(e) && error_matches(e, fl, "offset"@)),
            Ok(x0) => match i32_field(input_map_view(*map), "limit"@) {
                Err(fl) => (r matches Err(e) && error_matches(e, fl, "limit"@)),
                Ok(x1) => (r matches Ok(inp) && inp.offset == x0 && inp.limit == x1),
            },
        },
{
    proof {
        lemma_port_types_distinct();
        reveal_with_fuel(read_ports, 4);
    }
    match read_i32_input(map, "offset") {
        Err(e) => Err(e),
        Ok(v0) => match read_i32_input(map, "limit") {
            Err(e) => Err(e),
            Ok(v1) => Ok(Inputs { offset: v0, limit: v1 }),
        },
    }
}

} // verus!
