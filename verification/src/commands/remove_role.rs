//! `/remove_role`: a role is only removed from a member who holds it.
use vstd::prelude::*;

verus! {

/// Whether a member with the role ids `roles` holds the role `role`; when
/// not, `/remove_role` answers with an error and removes nothing.
pub fn holds_role(roles: &Vec<u64>, role: u64) -> (r: bool)
    ensures
        r == roles@.contains(role),
{
    for i in 0..roles.len()
        invariant
            forall|j: int| 0 <= j < i ==> roles@[j] != role,
    {
        if roles[i] == role {
            assert(roles@[i as int] == role);
            return true;
        }
    }
    false
}

} // verus!
