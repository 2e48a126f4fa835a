use vstd::prelude::*;

use crate::interfaces::{
    lemma_port_types_distinct, read_ports, InputValue, InputError, InputMap, PortList, error_matches, input_map_view, port_list_view, read_string_input, spec_lookup, string_field,
};

verus! {

/// The inputs of the `add_item` operation.
pub struct Inputs {
    pub document_id: String,
    pub collection_id: String,
    pub document: String,
}

impl Inputs {
    /// The inputs in the order of the ports, as plain values.
    pub open spec fn values(&self) -> Seq<InputValue> {
        seq![InputValue::Str(self.document_id@), InputValue::Str(self.collection_id@), InputValue::Str(self.document@)]
    }
}

/// The inputs of the `add_item` operation, each still encoded.
pub struct InputEncoded {
    pub document_id: Vec<u8>,
    pub collection_id: Vec<u8>,
    pub document: Vec<u8>,
}

/// The input ports of the `add_item` operation with their types.
pub open spec fn spec_inputs_list() -> Seq<(Seq<char>, Seq<char>)> {
    seq![("document_id"@, "string"@), ("collection_id"@, "string"@), ("document"@, "string"@)]
}

/// The input ports of the `add_item` operation with their types.
pub fn inputs_list() -> (r: PortList)
    ensures
        port_list_view(r) == spec_inputs_list(),
        port_list_view(r) == seq![("document_id"@, "string"@), ("collection_id"@, "string"@), ("document"@, "string"@)],
{
    let r: PortList = vec![("document_id", "string"), ("collection_id", "string"), ("document", "string")];
    assert(port_list_view(r) =~= spec_inputs_list());
    r
}

/// The output ports of the `add_item` operation with their types.
pub open spec fn spec_outputs_list() -> Seq<(Seq<char>, Seq<char>)> {
    seq![("document_id"@, "string"@)]
}

/// The output ports of the `add_item` operation with their types.
pub fn outputs_list() -> (r: PortList)
    ensures
        port_list_view(r) == spec_outputs_list(),
        port_list_view(r) == seq![("document_id"@, "string"@)],
{
    let r: PortList = vec![("document_id", "string")];
    assert(port_list_view(r) =~= spec_outputs_list());
    r
}

/// Reads and decodes the inputs of the `add_item` operation from `map`, in the
/// order of the ports; each port must have an entry. Fails with the codec
/// error of the first input that does not decode.
pub fn deserialize_inputs(map: &InputMap) -> (r: Result<Inputs, InputError>)
    requires
        spec_lookup(input_map_view(*map), "document_id"@) is Some,
        spec_lookup(input_map_view(*map), "collection_id"@) is Some,
        spec_lookup(input_map_view(*map), "document"@) is Some,
    ensures
        match read_ports(input_map_view(*map), spec_inputs_list()) {
            Ok(vs) => (r matches Ok(inp) && inp.values() == vs),
            Err(fail) => (r matches Err(e) && error_matches(e, fail.0, fail.1)),
        },
        match string_field(input_map_view(*map), "document_id"@) {
            Err(fl) => (r matches Err(e) && error_matches(e, fl, "document_id"@)),
            Ok(x0) => match string_field(input_map_view(*map), "collection_id"@) {
                Err(fl) => (r matches Err(e) && error_matches(e, fl, "collection_id"@)),
                Ok(x1) => match string_field(input_map_view(*map), "document"@) {
                    Err(fl) => (r matches Err(e) && error_matches(e, fl, "document"@)),
                    Ok(x2) => (r matches Ok(inp) && inp.document_id@ == x0 && inp.collection_id@ == x1 && inp.document@ == x2),
                },
            },
        },
{
    proof {
        lemma_port_types_distinct();
        reveal_with_fuel(read_ports, 4);
    }
    match read_string_input(map, "document_id") {
        Err(e) => Err(e),
        Ok(v0) => match read_string_input(map, "collection_id") {
            Err(e) => Err(e),
            Ok(v1) => match read_string_input(map, "document") {
                Err(e) => Err(e),
                Ok(v2) => Ok(Inputs { document_id: v0, collection_id: v1, document: v2 }),
            },
        },
    }
}

} // verus!
