//! The closed set of user roles and its conversions at the storage and
//! token boundaries.

use vstd::prelude::*;

verus! {

broadcast use vstd::string::group_string_axioms;

/// A user's role. `None` is the default assigned at registration; `Admin`
/// bypasses identity-match checks in the authorization gate.
#[derive(Clone, Copy, PartialEq, Eq, Structural, Debug)]
pub enum Role {
    Admin,
    Author,
    NoRole,
}

/// The integer code a role travels under at the storage boundary.
pub open spec fn spec_role_code(role: Role) -> i32 {
    match role {
        Role::Admin => 0,
        Role::Author => 1,
        Role::NoRole => 2,
    }
}

/// The role a storage-side integer code decodes to; unknown codes fall
/// back to `Role::NoRole`.
pub open spec fn spec_role_from_code(code: i32) -> Role {
    if code == 0 {
        Role::Admin
    } else if code == 1 {
        Role::Author
    } else {
        Role::NoRole
    }
}

/// The name a role travels under inside a token payload.
pub open spec fn spec_role_name(role: Role) -> Seq<char> {
    match role {
        Role::Admin => "Admin"@,
        Role::Author => "Author"@,
        Role::NoRole => "None"@,
    }
}

/// The role a token-payload name decodes to; unknown names decode to
/// nothing (the token is then rejected).
pub open spec fn spec_role_of_name(name: Seq<char>) -> Option<Role> {
    if name == "Admin"@ {
        Some(Role::Admin)
    } else if name == "Author"@ {
        Some(Role::Author)
    } else if name == "None"@ {
        Some(Role::NoRole)
    } else {
        Option::None
    }
}

impl Role {
    /// Storage-boundary encoding of the role.
    pub fn code(self) -> (r: i32)
        ensures
            r == spec_role_code(self),
    {
        match self {
            Role::Admin => 0,
            Role::Author => 1,
            Role::NoRole => 2,
        }
    }

    /// Token-payload name of the role.
    pub fn name(self) -> (r: String)
        ensures
            r@ == spec_role_name(self),
    {
        match self {
            Role::Admin => String::from_str("Admin"),
            Role::Author => String::from_str("Author"),
            Role::NoRole => String::from_str("None"),
        }
    }

    /// Decodes a token-payload name back into a role.
    pub fn from_name(name: &String) -> (r: Option<Role>)
        ensures
            r == spec_role_of_name(name@),
    {
        if *name == String::from_str("Admin") {
            Some(Role::Admin)
        } else if *name == String::from_str("Author") {
            Some(Role::Author)
        } else if *name == String::from_str("None") {
            Some(Role::NoRole)
        } else {
            Option::None
        }
    }
}

impl From<i32> for Role {
    /// Storage-boundary decoding of a role code.
    fn from(code: i32) -> (r: Role) {
        if code == 0 {
            Role::Admin
        } else if code == 1 {
            Role::Author
        } else {
            Role::NoRole
        }
    }
}

impl vstd::std_specs::convert::FromSpecImpl<i32> for Role {
    open spec fn obeys_from_spec() -> bool {
        true
    }

    open spec fn from_spec(code: i32) -> Role {
        spec_role_from_code(code)
    }
}

/// Encoding a role and decoding the code again always restores the role.
pub proof fn lemma_role_code_roundtrip(role: Role)
    ensures
        spec_role_from_code(spec_role_code(role)) == role,
{
}

/// Naming a role for a token payload and decoding the name again always
/// restores the role.
pub proof fn lemma_role_name_roundtrip(role: Role)
    ensures
        spec_role_of_name(spec_role_name(role)) == Some(role),
{
    reveal_strlit("Admin");
    reveal_strlit("Author");
    reveal_strlit("None");
    assert("Admin"@.len() == 5);
    assert("Author"@.len() == 6);
    assert("None"@.len() == 4);
}

} // verus!
