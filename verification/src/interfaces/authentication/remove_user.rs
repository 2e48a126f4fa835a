use vstd::prelude::*;

use crate::interfaces::{
    lemma_port_types_distinct, read_ports, InputValue, InputError, InputMap, PortList, error_matches, input_map_view, port_list_view, read_string_input, string_field,
};

verus! {

/// The inputs of the `remove_user` operation.
pub struct Inputs {
    pub username: String,
}

impl Inputs {
    /// The inputs in the order of the ports, as plain values.
    pub open spec fn values(&self) -> Seq<InputValue> {
        seq![InputValue::Str(self.username@)]
    }
}

/// The inputs of the `remove_user` operation, each still encoded.
pub struct InputEncoded {
    pub username: Vec<u8>,
}

/// The input ports of the `remove_user` operation with their types.
pub open spec fn spec_inputs_list() -> Seq<(Seq<char>, Seq<char>)> {
    seq![("username"@, "string"@)]
}

/// The input ports of the `remove_user` operation with their types.
pub fn inputs_list() -> (r: PortList)
    ensures
        port_list_view(r) == spec_inputs_list(),
        port_list_view(r) == seq![("username"@, "string"@)],
{
    let r: PortList = vec![("username", "string")];
    assert(port_list_view(r) =~= spec_inputs_list());
    r
}

/// The output ports of the `remove_user` operation with their types.
pub open spec fn spec_outputs_list() -> Seq<(Seq<char>, Seq<char>)> {
    seq![("user_id"@, "string"@)]
}

/// The output ports of the `remove_user` operation with their types.
pub fn outputs_list() -> (r: PortList)
    ensures
        port_list_view(r) == spec_outputs_list(),
        port_list_view(r) == seq![("user_id"@, "string"@)],
{
    let r: PortList = vec![("user_id", "string")];
    assert(port_list_view(r) =~= spec_outputs_list());
    r
}

/// Reads and decodes the inputs of the `remove_user` operation from `map`, in the
/// order of the ports. Fails at the first input that is missing or does
/// not decode, with the error for that input.
pub fn deserialize_inputs(map: &InputMap) -> (r: Result<Inputs, InputError>)
    ensures
        match read_ports(input_map_view(*map), spec_inputs_list()) {
            Ok(vs) => (r matches Ok(inp) && inp.values() == vs),
            Err(fail) => (r matches Err(e) && error_matches(e, fail.0, fail.1)),
        },
        match string_field(input_map_view(*map), "username"@) {
            Err(fl) => (r matches Err(e) && error_matches(e, fl, "username"@)),
            Ok(x0) => (r matches Ok(inp) && inp.username@ == x0),
        },
{
    proof {
        lemma_port_types_distinct();
        reveal_with_fuel(read_ports, 4);
    }
    match read_string_input(map, "username") {
        Err(e) => Err(e),
        Ok(v0) => Ok(Inputs { username: v0 }),
    }
}

} // verus!
