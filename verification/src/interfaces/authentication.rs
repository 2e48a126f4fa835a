//! The operations of the authentication interface.

use vstd::prelude::*;

pub mod authenticate;
pub mod create_user;
pub mod get_id;
pub mod has_permission;
pub mod list_permissions;
pub mod list_users;
pub mod remove_user;
pub mod update_permissions;
pub mod validate_session;

verus! {

/// The ports of the authentication operations fit together: the user id
/// that `create_user`, `get_id`, `validate_session`, `has_permission` and
/// `remove_user` answer with is the one `create_user` takes and by which permissions are
/// asked for, listed and updated; the session that `authenticate` answers
/// with is what `validate_session` takes; the user name and password that
/// `create_user` takes are those `authenticate` checks, and the name is what
/// `get_id` and `remove_user` take; and the permission list that
/// `update_permissions` takes is what it and `list_permissions` send back.
pub proof fn lemma_authentication_ports_agree()
    ensures
        create_user::spec_outputs_list() == seq![create_user::spec_inputs_list()[0]],
        get_id::spec_outputs_list() == create_user::spec_outputs_list(),
        validate_session::spec_outputs_list() == create_user::spec_outputs_list(),
        has_permission::spec_outputs_list() == create_user::spec_outputs_list(),
        remove_user::spec_outputs_list() == create_user::spec_outputs_list(),
        has_permission::spec_inputs_list()[0] == create_user::spec_outputs_list()[0],
        list_permissions::spec_inputs_list() == create_user::spec_outputs_list(),
        update_permissions::spec_inputs_list()[0] == create_user::spec_outputs_list()[0],
        authenticate::spec_outputs_list()[0] == validate_session::spec_inputs_list()[0],
        authenticate::spec_outputs_list()[1] == create_user::spec_outputs_list()[0],
        authenticate::spec_inputs_list().subrange(1, 3) == create_user::spec_inputs_list().subrange(1, 3),
        get_id::spec_inputs_list() == seq![create_user::spec_inputs_list()[1]],
        remove_user::spec_inputs_list() == get_id::spec_inputs_list(),
        update_permissions::spec_outputs_list() == seq![update_permissions::spec_inputs_list()[1]],
        list_permissions::spec_outputs_list() == update_permissions::spec_outputs_list(),
{
    assert(authenticate::spec_inputs_list().subrange(1, 3) =~= create_user::spec_inputs_list().subrange(1, 3));
}

} // verus!
