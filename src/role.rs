//! The role a token is scoped to.
use vstd::prelude::*;
use crate::text::same_text;

verus! {

/// What a token may be used for. `Unauth` is never issued: it stands for a
/// role name that is not recognised.
#[derive(Clone, Copy, Debug, PartialEq, Eq, Structural)]
pub enum Role {
    /// Only good for obtaining a new token pair.
    Refresh,
    /// Presented for ordinary protected operations.
    Access,
    /// An unrecognised role.
    Unauth,
}

/// The name under which a role is written into a token.
pub open spec fn role_name(r: Role) -> Seq<char> {
    match r {
        Role::Access => "Access"@,
        Role::Refresh => "Refresh"@,
        Role::Unauth => "Invalid"@,
    }
}

/// The role that a name in a token stands for.
pub open spec fn parse_role(s: Seq<char>) -> Role {
    if s == "Refresh"@ {
        Role::Refresh
    } else if s == "Access"@ {
        Role::Access
    } else {
        Role::Unauth
    }
}

impl Role {
    /// Reads a role name; any name but `Refresh` and `Access` gives `Unauth`.
    pub fn from_str(role: &str) -> (r: Role)
        ensures
            r == parse_role(role@),
    {
        if same_text(role, "Refresh") {
            Role::Refresh
        } else if same_text(role, "Access") {
            Role::Access
        } else {
            Role::Unauth
        }
    }

    /// The name of this role as written into a token.
    pub fn to_string(&self) -> (r: String)
        ensures
            r@ == role_name(*self),
    {
        match self {
            Role::Access => String::from_str("Access"),
            Role::Refresh => String::from_str("Refresh"),
            Role::Unauth => String::from_str("Invalid"),
        }
    }
}

/// Writing an issuable role into a token and reading it back gives the same role.
pub proof fn lemma_role_name_round_trip(r: Role)
    requires
        r != Role::Unauth,
    ensures
        parse_role(role_name(r)) == r,
{
    reveal_strlit("Access");
    reveal_strlit("Refresh");
    assert("Access"@.len() != "Refresh"@.len());
}

} // verus!
