use vstd::prelude::*;

use crate::interfaces::{
    lemma_port_types_distinct, read_ports, InputValue, InputError, InputMap, PortList, error_matches, input_map_view, port_list_view, read_string_input, string_field,
};

verus! {

/// The inputs of the `create_user` operation.
pub struct Inputs {
    pub user_id: String,
    pub username: String,
    pub password: String,
}

impl Inputs {
    /// The inputs in the order of the ports, as plain values.
    pub open spec fn values(&self) -> Seq<InputValue> {
        seq![InputValue::Str(self.user_id@), InputValue::Str(self.username@), InputValue::Str(self.password@)]
    }
}

/// The inputs of the `create_user` operation, each still encoded.
pub struct InputEncoded {
    pub user_id: Vec<u8>,
    pub username: Vec<u8>,
    pub password: Vec<u8>,
}

/// The input ports of the `create_user` operation with their types.
pub open spec fn spec_inputs_list() -> Seq<(Seq<char>, Seq<char>)> {
    seq![("user_id"@, "string"@), ("username"@, "string"@), ("password"@, "string"@)]
}

/// The input ports of the `create_user` operation with their types.
pub fn inputs_list() -> (r: PortList)
    ensures
        port_list_view(r) == spec_inputs_list(),
        port_list_view(r) == seq![("user_id"@, "string"@), ("username"@, "string"@), ("password"@, "string"@)],
{
    let r: PortList = vec![("user_id", "string"), ("username", "string"), ("password", "string")];
    assert(port_list_view(r) =~= spec_inputs_list());
    r
}

/// The output ports of the `create_user` operation with their types.
pub open spec fn spec_outputs_list() -> Seq<(Seq<char>, Seq<char>)> {
    seq![("user_id"@, "string"@)]
}

/// The output ports of the `create_user` operation with their types.
pub fn outputs_list() -> (r: PortList)
    ensures
        port_list_view(r) == spec_outputs_list(),
        port_list_view(r) == seq![("user_id"@, "string"@)],
{
    let r: PortList = vec![("user_id", "string")];
    assert(port_list_view(r) =~= spec_outputs_list());
    r
}

/// Reads and decodes the inputs of the `create_user` operation from `map`, in the
/// order of the ports. Fails at the first input that is missing or does
/// not decode, with the error for that input.
pub fn deserialize_inputs(map: &InputMap) -> (r: Result<Inputs, InputError>)
    ensures
        match read_ports(input_map_view(*map), spec_inputs_list()) {
            Ok(vs) => (r matches Ok(inp) && inp.values() == vs),
            Err(fail) => (r matches Err(e) && error_matches(e, fail.0, fail.1)),
        },
        match string_field(input_map_view(*map), "user_id"@) {
            Err(fl) => (r matches Err(e) && error_matches(e, fl, "user_id"@)),
            Ok(x0) => match string_field(input_map_view(*map), "username"@) {
                Err(fl) => (r matches Err(e) && error_matches(e, fl, "username"@)),
                Ok(x1) => match string_field(input_map_view(*map), "password"@) {
                    Err(fl) => (r matches Err(e) && error_matches(e, fl, "password"@)),
                    Ok(x2) => (r matches Ok(inp) && inp.user_id@ == x0 && inp.username@ == x1 && inp.password@ == x2),
                },
            },
        },
{
    proof {
        lemma_port_types_distinct();
        reveal_with_fuel(read_ports, 4);
    }
    match read_string_input(map, "user_id") {
        Err(e) => Err(e),
        Ok(v0) => match read_string_input(map, "username") {
            Err(e) => Err(e),
            Ok(v1) => match read_string_input(map, "password") {
                Err(e) => Err(e),
                Ok(v2) => Ok(Inputs { user_id: v0, username: v1, password: v2 }),
            },
        },
    }
}

} // verus!
