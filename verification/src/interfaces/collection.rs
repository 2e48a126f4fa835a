//! The operations of the document collection interface.

use vstd::prelude::*;

pub mod add_item;
pub mod get_item;
pub mod list_items;
pub mod rm_item;

verus! {

/// The ports of the collection operations fit together: `get_item` sends
/// back the document that `add_item` takes; `add_item` answers with the
/// document id under which `get_item` and `rm_item` find the document; both
/// address a document by collection and id alike, the collection being the
/// one `add_item` takes; and `list_items` takes the collection as they do and
/// sends a list of values of the type of the id `add_item` answers with.
pub proof fn lemma_collection_ports_agree()
    ensures
        get_item::spec_outputs_list() == seq![add_item::spec_inputs_list()[2]],
        add_item::spec_outputs_list()[0] == get_item::spec_inputs_list()[1],
        add_item::spec_outputs_list()[0] == rm_item::spec_inputs_list()[1],
        get_item::spec_inputs_list() == rm_item::spec_inputs_list(),
        add_item::spec_inputs_list()[1] == get_item::spec_inputs_list()[0],
        list_items::spec_inputs_list() == seq![get_item::spec_inputs_list()[0]],
        list_items::spec_outputs_list()[0].1 == "["@ + add_item::spec_outputs_list()[0].1 + "]"@,
        rm_item::spec_outputs_list().len() == 0,
{
    reveal_strlit("[string]");
    reveal_strlit("string");
    reveal_strlit("[");
    reveal_strlit("]");
    assert("[string]"@ =~= "["@ + "string"@ + "]"@);
}

} // verus!
