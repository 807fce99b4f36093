//! The user account record and the visibility rules applied when one
//! user looks at another.

use vstd::prelude::*;
use crate::role::Role;
use crate::token::Claims;

verus! {

/// A stored user account. The password field holds only the credential
/// hasher's output, never plaintext.
pub struct User {
    pub id: i32,
    pub username: String,
    pub role: Role,
    pub email: String,
    pub password: String,
}

/// The mathematical content of a user record.
pub struct UserV {
    pub id: int,
    pub username: Seq<char>,
    pub role: Role,
    pub email: Seq<char>,
    pub password: Seq<char>,
}

impl View for User {
    type V = UserV;

    open spec fn view(&self) -> UserV {
        UserV {
            id: self.id as int,
            username: self.username@,
            role: self.role,
            email: self.email@,
            password: self.password@,
        }
    }
}

impl Clone for User {
    fn clone(&self) -> (r: User)
        ensures
            r@ == self@,
    {
        User {
            id: self.id,
            username: self.username.clone(),
            role: self.role,
            email: self.email.clone(),
            password: self.password.clone(),
        }
    }
}

/// Whether a user shows up in search results for a given viewer: users
/// without a role are hidden from everyone but admins and themselves.
pub open spec fn spec_is_searchable_by(u: UserV, claims: Option<Claims>) -> bool {
    match claims {
        Some(c) => u.role != Role::NoRole || c.role == Role::Admin || c.id as int == u.id,
        None => u.role != Role::NoRole,
    }
}

/// Whether a viewer may see a user's private fields: only the user
/// themselves and admins.
pub open spec fn spec_sees_private(u: UserV, claims: Option<Claims>) -> bool {
    match claims {
        Some(c) => c.id as int == u.id || c.role == Role::Admin,
        None => false,
    }
}

/// A user as some viewer sees them: the email only for the user
/// themselves and for admins, never the password.
pub struct UserSeen {
    pub id: i32,
    pub username: String,
    pub role: Role,
    pub email: Option<String>,
}

/// The mathematical content of a visible user record.
pub struct UserSeenV {
    pub id: int,
    pub username: Seq<char>,
    pub role: Role,
    pub email: Option<Seq<char>>,
}

impl View for UserSeen {
    type V = UserSeenV;

    open spec fn view(&self) -> UserSeenV {
        UserSeenV {
            id: self.id as int,
            username: self.username@,
            role: self.role,
            email: match self.email {
                Some(ref e) => Some(e@),
                None => None,
            },
        }
    }
}

/// What `as_seen_from` discloses of a user to a viewer.
pub open spec fn spec_seen_from(u: UserV, claims: Option<Claims>) -> UserSeenV {
    UserSeenV {
        id: u.id,
        username: u.username,
        role: u.role,
        email: if spec_sees_private(u, claims) {
            Some(u.email)
        } else {
            None
        },
    }
}

impl User {
    /// Changes the user's role and nothing else.
    pub fn set_role(&mut self, new_role: Role)
        ensures
            final(self)@ == (UserV { role: new_role, ..old(self)@ }),
    {
        self.role = new_role;
    }

    /// Whether this user shows up in search results for the given
    /// viewer.
    pub fn is_searchable_by(&self, claims: &Option<Claims>) -> (r: bool)
        ensures
            r == spec_is_searchable_by(self@, *claims),
    {
        let is_searcher = match claims {
            Some(c) => c.id == self.id,
            None => false,
        };
        match claims {
            Some(c) => self.role != Role::NoRole || c.role == Role::Admin || is_searcher,
            None => self.role != Role::NoRole,
        }
    }

    /// Projects the fields the given viewer may see: id, username and
    /// role always; the email only for the user themselves and admins;
    /// the password never.
    pub fn as_seen_from(&self, claims: &Option<Claims>) -> (r: UserSeen)
        ensures
            r@ == spec_seen_from(self@, *claims),
    {
        let sees_private = match claims {
            Some(c) => c.id == self.id || matches!(c.role, Role::Admin),
            None => false,
        };
        UserSeen {
            id: self.id,
            username: self.username.clone(),
            role: self.role,
            email: if sees_private {
                Some(self.email.clone())
            } else {
                None
            },
        }
    }
}

/// The search projection applied to looked-up users, in order: those the
/// viewer may not search for are dropped, the rest are reduced to their
/// visible fields.
pub open spec fn spec_visible_views(users: Seq<UserV>, claims: Option<Claims>) -> Seq<UserSeenV>
    decreases users.len(),
{
    if users.len() == 0 {
        Seq::empty()
    } else {
        spec_visible_views(users.drop_last(), claims) + (if spec_is_searchable_by(
            users.last(),
            claims,
        ) {
            seq![spec_seen_from(users.last(), claims)]
        } else {
            Seq::empty()
        })
    }
}

/// Filters looked-up users down to those the viewer may search for and
/// projects each to its visible fields, keeping the order.
pub fn searchable_as_seen_from(users: &Vec<User>, claims: &Option<Claims>) -> (r: Vec<UserSeen>)
    ensures
        r@.map_values(|u: UserSeen| u@) == spec_visible_views(
            users@.map_values(|u: User| u@),
            *claims,
        ),
{
    let ghost uv = users@.map_values(|u: User| u@);
    let mut r: Vec<UserSeen> = Vec::new();
    let mut i: usize = 0;
    while i < users.len()
        invariant
            i <= users@.len(),
            uv == users@.map_values(|u: User| u@),
            r@.map_values(|u: UserSeen| u@) == spec_visible_views(uv.subrange(0, i as int), *claims),
        decreases users@.len() - i,
    {
        let ghost prefix = uv.subrange(0, i as int);
        let ghost next_prefix = uv.subrange(0, i + 1 as int);
        proof {
            assert(next_prefix.drop_last() =~= prefix);
            assert(next_prefix.last() == uv[i as int]);
        }
        if users[i].is_searchable_by(claims) {
            let seen = users[i].as_seen_from(claims);
            r.push(seen);
        }
        proof {
            assert(r@.map_values(|u: UserSeen| u@) =~= spec_visible_views(next_prefix, *claims));
        }
        i = i + 1;
    }
    proof {
        assert(uv.subrange(0, uv.len() as int) =~= uv);
    }
    r
}

} // verus!
