//! User roles, their names, and reading a role back from its name.

use vstd::prelude::*;
use crate::text::str_eq;

verus! {

/// The role of a registered user.
#[derive(PartialEq, Eq, Structural, Clone, Copy, Debug)]
pub enum UserRole {
    Admin,
    User,
}

/// The name under which a role is stored and carried in tokens.
pub open spec fn role_name(r: UserRole) -> Seq<char> {
    match r {
        UserRole::Admin => "Admin"@,
        UserRole::User => "User"@,
    }
}

/// The role that `name` names, if any: exactly `"Admin"` or `"User"`.
pub open spec fn role_of_name(name: Seq<char>) -> Option<UserRole> {
    if name == "Admin"@ {
        Some(UserRole::Admin)
    } else if name == "User"@ {
        Some(UserRole::User)
    } else {
        None
    }
}

impl UserRole {
    /// The role's name, as the text form of the role.
    pub fn to_string(&self) -> (s: String)
        ensures
            s@ == role_name(*self),
    {
        match self {
            UserRole::Admin => String::from_str("Admin"),
            UserRole::User => String::from_str("User"),
        }
    }
}

/// Reads a role from its name; `None` for any other text.
pub fn parse_role(name: &str) -> (r: Option<UserRole>)
    ensures
        r == role_of_name(name@),
{
    if str_eq(name, "Admin") {
        Some(UserRole::Admin)
    } else if str_eq(name, "User") {
        Some(UserRole::User)
    } else {
        None
    }
}

/// Reading back the name of a role gives the same role.
pub proof fn law_role_name_roundtrip(r: UserRole)
    ensures
        role_of_name(role_name(r)) == Some(r),
{
    reveal_strlit("Admin");
    reveal_strlit("User");
    assert("Admin"@.len() == 5 && "User"@.len() == 4);
}

} // verus!
