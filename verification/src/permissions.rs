//! Who counts as an administrator of the currency.

use vstd::prelude::*;
use vstd::string::StringExecFns;

verus! {

/// Whether one of `role_names` is `wanted`.
pub open spec fn names_role(role_names: Seq<Seq<char>>, wanted: Seq<char>) -> bool {
    exists|i: int| 0 <= i < role_names.len() && #[trigger] role_names[i] == wanted
}

/// The names of `role_names`, each as a sequence of characters.
pub open spec fn role_texts(role_names: Seq<String>) -> Seq<Seq<char>> {
    Seq::new(role_names.len(), |i: int| role_names[i]@)
}

/// Whether a member with the roles `role_names` holds the role `wanted`.
pub fn has_role_named(role_names: &Vec<String>, wanted: &str) -> (found: bool)
    ensures
        found == names_role(role_texts(role_names@), wanted@),
{
    let sought = String::from_str(wanted);
    let mut i: usize = 0;
    while i < role_names.len()
        invariant
            0 <= i <= role_names@.len(),
            sought@ == wanted@,
            forall|j: int| 0 <= j < i ==> (#[trigger] role_texts(role_names@)[j]) != wanted@,
        decreases role_names@.len() - i,
    {
        if role_names[i] == sought {
            assert(role_texts(role_names@)[i as int] == wanted@);
            return true;
        }
        i += 1;
    }
    false
}

/// Whether `user_id` administers the currency: as the owner of the
/// application, as an administrator of the server, or as holder of the role
/// named `admin_role_name`.
pub fn is_admin(
    user_id: u64,
    owner_id: Option<u64>,
    is_server_administrator: bool,
    role_names: &Vec<String>,
    admin_role_name: &str,
) -> (admin: bool)
    ensures
        admin == (owner_id == Some(user_id) || is_server_administrator || names_role(
            role_texts(role_names@),
            admin_role_name@,
        )),
{
    let is_owner = match owner_id {
        Some(owner) => owner == user_id,
        None => false,
    };
    is_owner || is_server_administrator || has_role_named(role_names, admin_role_name)
}

/// Whether `user_id` may register somebody else: administrators may.
pub fn can_register_others(
    user_id: u64,
    owner_id: Option<u64>,
    is_server_administrator: bool,
    role_names: &Vec<String>,
    admin_role_name: &str,
) -> (allowed: bool)
    ensures
        allowed == (owner_id == Some(user_id) || is_server_administrator || names_role(
            role_texts(role_names@),
            admin_role_name@,
        )),
{
    is_admin(user_id, owner_id, is_server_administrator, role_names, admin_role_name)
}

} // verus!
