//! Users and their roles.

use vstd::prelude::*;
use vstd::string::*;

use crate::text::str_equals;

verus! {

/// The role of a user: administrators manage tasks, staff work on them.
#[derive(Clone, Copy, Debug, PartialEq, Eq, Structural)]
pub enum Role {
    Admin,
    Staff,
}

/// The lower-case name of a role, as shown to clients and stored in the database.
pub open spec fn role_name(role: Role) -> Seq<char> {
    match role {
        Role::Admin => "admin"@,
        Role::Staff => "staff"@,
    }
}

/// The role whose lower-case name is `name`, if any.
pub open spec fn role_named(name: Seq<char>) -> Option<Role> {
    if name == "admin"@ {
        Some(Role::Admin)
    } else if name == "staff"@ {
        Some(Role::Staff)
    } else {
        None
    }
}

/// The lower-case name of a role.
pub fn role_str(role: &Role) -> (name: String)
    ensures
        name@ == role_name(*role),
{
    match role {
        Role::Admin => String::from_str("admin"),
        Role::Staff => String::from_str("staff"),
    }
}

/// The role whose lower-case name is `name`, if any.
pub fn role_from_name(name: &str) -> (role: Option<Role>)
    ensures
        role == role_named(name@),
        role matches Some(r) ==> role_name(r) == name@,
        role is None ==> (forall|r: Role| role_name(r) != name@),
{
    if str_equals(name, "admin") {
        Some(Role::Admin)
    } else if str_equals(name, "staff") {
        Some(Role::Staff)
    } else {
        proof {
            reveal_strlit("admin");
            reveal_strlit("staff");
            assert(name@ != "admin"@ && name@ != "staff"@);
        }
        None
    }
}

/// Different roles have different names, so a role read back by its name is
/// the role that was written.
pub proof fn law_role_name_injective(a: Role, b: Role)
    requires
        role_name(a) == role_name(b),
    ensures
        a == b,
{
    reveal_strlit("admin");
    reveal_strlit("staff");
    assert("admin"@[0] == 'a' && "staff"@[0] == 's');
}

/// A role's name reads back as that role.
pub proof fn lemma_role_named_role_name(role: Role)
    ensures
        role_named(role_name(role)) == Some(role),
{
    reveal_strlit("admin");
    reveal_strlit("staff");
    assert("admin"@[0] == 'a' && "staff"@[0] == 's');
}

} // verus!
