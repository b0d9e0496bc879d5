use vstd::prelude::*;

verus! {

/// The role name that lifts the ownership requirement.
pub open spec fn admin_role() -> Seq<char> {
    "admin"@
}

/// The role name of everybody who is no admin.
pub open spec fn agent_role() -> Seq<char> {
    "agent"@
}

/// Whether `role` is one of the two roles a user can have.
pub open spec fn is_role(role: Seq<char>) -> bool {
    role == agent_role() || role == admin_role()
}

/// The owner-or-admin rule: an admin reaches every resource, anybody else
/// only the resources whose owner is the caller. A resource without an owner
/// is therefore reachable by admins alone.
pub open spec fn permits(role: Seq<char>, identity_id: i32, owner: Option<i32>) -> bool {
    role == admin_role() || owner == Some(identity_id)
}

/// Whether `role` is the admin role. The comparison is exact: case and
/// surrounding blanks count.
pub fn is_admin(role: &str) -> (r: bool)
    ensures
        r == (role@ == admin_role()),
{
    let given = role.to_owned();
    let admin = "admin".to_owned();
    given == admin
}

/// Whether `role` is one of the two roles a user can have. The
/// comparison is exact: case and surrounding blanks count.
pub fn is_known_role(role: &str) -> (r: bool)
    ensures
        r == is_role(role@),
{
    let given = role.to_owned();
    let agent = "agent".to_owned();
    given == agent || is_admin(role)
}

/// Decides whether a caller with `role` and `identity_id` may read, change
/// or delete a resource owned by `resource_owner_id`.
pub fn can_access(role: &str, identity_id: i32, resource_owner_id: Option<i32>) -> (r: bool)
    ensures
        r == permits(role@, identity_id, resource_owner_id),
{
    if is_admin(role) {
        return true;
    }
    match resource_owner_id {
        Some(owner) => owner == identity_id,
        None => false,
    }
}

/// A resource without an owner is reachable by admins and by nobody else.
pub proof fn law_unowned_is_for_admins(role: Seq<char>, identity_id: i32)
    ensures
        permits(role, identity_id, None) <==> role == admin_role(),
{
}

/// An owner reaches what they own whatever their role, and an admin
/// reaches everything.
pub proof fn law_owner_or_admin(role: Seq<char>, identity_id: i32, owner: Option<i32>)
    ensures
        owner == Some(identity_id) ==> permits(role, identity_id, owner),
        role == admin_role() ==> permits(role, identity_id, owner),
        role != admin_role() && owner != Some(identity_id) ==> !permits(role, identity_id, owner),
{
}

} // verus!
