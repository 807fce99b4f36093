//! The user store: the collection of registered accounts, with the
//! invariants the rest of the system relies on. Identifiers are assigned
//! sequentially; usernames and emails are unique; a stored password is
//! always the credential hasher's output.

use vstd::prelude::*;
use crate::role::Role;
use crate::security::is_hash_of;
use crate::users::User;
use crate::users::UserV;

verus! {

/// The fields a uniqueness check can be keyed by. Keeping the set closed
/// keeps lookup logic in one place instead of duplicating it per field.
#[derive(Clone, Copy, PartialEq, Eq, Structural, Debug)]
pub enum UserField {
    Username,
    Email,
}

/// The value a user record carries in the given field.
pub open spec fn spec_field_of(u: UserV, field: UserField) -> Seq<char> {
    match field {
        UserField::Username => u.username,
        UserField::Email => u.email,
    }
}

/// No stored user carries `value` in the given field.
pub open spec fn spec_is_unique(users: Seq<UserV>, field: UserField, value: Seq<char>) -> bool {
    forall|i: int| 0 <= i < users.len() ==> spec_field_of(#[trigger] users[i], field) != value
}

/// The first stored user whose field carries `value`, in storage order.
pub open spec fn spec_find_by(users: Seq<UserV>, field: UserField, value: Seq<char>) -> Option<
    UserV,
>
    decreases users.len(),
{
    if users.len() == 0 {
        None
    } else if spec_field_of(users[0], field) == value {
        Some(users[0])
    } else {
        spec_find_by(users.drop_first(), field, value)
    }
}

/// The first stored user with the given id.
pub open spec fn spec_find_by_id(users: Seq<UserV>, id: int) -> Option<UserV>
    decreases users.len(),
{
    if users.len() == 0 {
        None
    } else if users[0].id == id {
        Some(users[0])
    } else {
        spec_find_by_id(users.drop_first(), id)
    }
}

/// Whether a fresh row could be inserted: the identifier space is not
/// exhausted and both unique fields are free. This is what the backing
/// storage's own constraints enforce as the last line of defense.
pub open spec fn spec_can_insert(
    users: Seq<UserV>,
    next_id: int,
    username: Seq<char>,
    email: Seq<char>,
) -> bool {
    &&& next_id < i32::MAX
    &&& spec_is_unique(users, UserField::Username, username)
    &&& spec_is_unique(users, UserField::Email, email)
}

/// A user row as a storage backend hands it over, with the role still in
/// its integer code.
pub struct UserPostgres {
    pub id: i32,
    pub username: String,
    pub role: i32,
    pub email: String,
    pub password: String,
}

impl UserPostgres {
    /// The storage-boundary conversion: decode the role code, carry the
    /// rest over unchanged.
    pub fn into_user(self) -> (r: User)
        ensures
            r@ == (UserV {
                id: self.id as int,
                username: self.username@,
                role: crate::role::spec_role_from_code(self.role),
                email: self.email@,
                password: self.password@,
            }),
    {
        User {
            id: self.id,
            username: self.username,
            role: Role::from(self.role),
            email: self.email,
            password: self.password,
        }
    }
}

/// The store of registered accounts.
pub struct UserStore {
    users: Vec<User>,
    next_id: i32,
}

impl View for UserStore {
    type V = Seq<UserV>;

    closed spec fn view(&self) -> Seq<UserV> {
        self.users@.map_values(|u: User| u@)
    }
}

impl UserStore {
    /// The identifier the next inserted row will receive.
    pub closed spec fn spec_next_id(&self) -> int {
        self.next_id as int
    }

    /// The store's invariants: identifiers are positive, below the next
    /// free one and unique; usernames and emails are unique; every
    /// stored password is the credential hasher's output for some
    /// password.
    pub closed spec fn wf(&self) -> bool {
        &&& 1 <= self.next_id
        &&& forall|i: int| 0 <= i < self@.len() ==> 1 <= (#[trigger] self@[i]).id < self.spec_next_id()
        &&& forall|i: int, j: int|
            0 <= i < j < self@.len() ==> (#[trigger] self@[i]).id != (#[trigger] self@[j]).id
                && self@[i].username != self@[j].username && self@[i].email != self@[j].email
        &&& forall|i: int|
            0 <= i < self@.len() ==> exists|p: Seq<char>|
                is_hash_of((#[trigger] self@[i]).password, p)
    }

    /// The next identifier always fits the identifier type.
    pub proof fn lemma_next_id_bound(&self)
        ensures
            self.spec_next_id() <= i32::MAX,
    {
    }

    /// An empty store; the first account will receive identifier 1.
    pub fn new() -> (s: UserStore)
        ensures
            s@ == Seq::<UserV>::empty(),
            s.spec_next_id() == 1,
            s.wf(),
    {
        let s = UserStore { users: Vec::new(), next_id: 1 };
        proof {
            assert(s@ =~= Seq::<UserV>::empty());
        }
        s
    }

    /// How many accounts the store holds.
    pub fn len(&self) -> (n: usize)
        ensures
            n == self@.len(),
    {
        self.users.len()
    }

    /// The uniqueness oracle: whether no stored account carries `value`
    /// in the given field. In this store a lookup cannot fail; a
    /// storage collaborator that can is handed to the validators as an
    /// oracle outcome instead.
    pub fn is_unique(&self, field: UserField, value: &String) -> (r: bool)
        ensures
            r == spec_is_unique(self@, field, value@),
    {
        let mut i: usize = 0;
        while i < self.users.len()
            invariant
                i <= self@.len(),
                forall|j: int|
                    0 <= j < i ==> spec_field_of(#[trigger] self@[j], field) != value@,
            decreases self@.len() - i,
        {
            let field_value = match field {
                UserField::Username => &self.users[i].username,
                UserField::Email => &self.users[i].email,
            };
            if *field_value == *value {
                assert(spec_field_of(self@[i as int], field) == value@);
                return false;
            }
            i = i + 1;
        }
        true
    }

    /// Looks up the single account carrying `value` in the given field.
    pub fn find_by(&self, field: UserField, value: &String) -> (r: Option<User>)
        ensures
            match r {
                Some(u) => spec_find_by(self@, field, value@) == Some(u@),
                None => spec_find_by(self@, field, value@) is None,
            },
    {
        proof {
            assert(self@.skip(0) =~= self@);
        }
        let mut i: usize = 0;
        while i < self.users.len()
            invariant
                i <= self@.len(),
                spec_find_by(self@, field, value@) == spec_find_by(
                    self@.skip(i as int),
                    field,
                    value@,
                ),
            decreases self@.len() - i,
        {
            proof {
                assert(self@.skip(i as int).drop_first() =~= self@.skip(i + 1));
                assert(self@.skip(i as int)[0] == self@[i as int]);
            }
            let field_value = match field {
                UserField::Username => &self.users[i].username,
                UserField::Email => &self.users[i].email,
            };
            if *field_value == *value {
                return Some(self.users[i].clone());
            }
            i = i + 1;
        }
        proof {
            assert(self@.skip(self@.len() as int) =~= Seq::<UserV>::empty());
        }
        None
    }

    /// Looks up an account by username.
    pub fn find_by_username(&self, username: &String) -> (r: Option<User>)
        ensures
            match r {
                Some(u) => spec_find_by(self@, UserField::Username, username@) == Some(u@),
                None => spec_find_by(self@, UserField::Username, username@) is None,
            },
    {
        self.find_by(UserField::Username, username)
    }

    /// Looks up an account by email.
    pub fn find_by_email(&self, email: &String) -> (r: Option<User>)
        ensures
            match r {
                Some(u) => spec_find_by(self@, UserField::Email, email@) == Some(u@),
                None => spec_find_by(self@, UserField::Email, email@) is None,
            },
    {
        self.find_by(UserField::Email, email)
    }

    /// Looks up an account by identifier.
    pub fn find_by_id(&self, id: i32) -> (r: Option<User>)
        ensures
            match r {
                Some(u) => spec_find_by_id(self@, id as int) == Some(u@),
                None => spec_find_by_id(self@, id as int) is None,
            },
    {
        proof {
            assert(self@.skip(0) =~= self@);
        }
        let mut i: usize = 0;
        while i < self.users.len()
            invariant
                i <= self@.len(),
                spec_find_by_id(self@, id as int) == spec_find_by_id(
                    self@.skip(i as int),
                    id as int,
                ),
            decreases self@.len() - i,
        {
            proof {
                assert(self@.skip(i as int).drop_first() =~= self@.skip(i + 1));
                assert(self@.skip(i as int)[0] == self@[i as int]);
            }
            if self.users[i].id == id {
                return Some(self.users[i].clone());
            }
            i = i + 1;
        }
        proof {
            assert(self@.skip(self@.len() as int) =~= Seq::<UserV>::empty());
        }
        None
    }

    /// Inserts a fresh account row and returns its new identifier. The
    /// password must be the credential hasher's output. Fails exactly
    /// when a unique field is taken or the identifier space is
    /// exhausted, as the backing storage's own constraints would; no
    /// row is written then.
    pub fn insert_returning_id(
        &mut self,
        username: &String,
        email: &String,
        password: &String,
        role: Role,
    ) -> (r: Result<i32, ()>)
        requires
            old(self).wf(),
            exists|p: Seq<char>| is_hash_of(password@, p),
        ensures
            final(self).wf(),
            r is Ok <==> spec_can_insert(old(self)@, old(self).spec_next_id(), username@, email@),
            match r {
                Ok(id) => id == old(self).spec_next_id() && final(self)@ == old(self)@.push(
                    UserV {
                        id: old(self).spec_next_id(),
                        username: username@,
                        role,
                        email: email@,
                        password: password@,
                    },
                ) && final(self).spec_next_id() == old(self).spec_next_id() + 1,
                Err(_) => final(self)@ == old(self)@ && final(self).spec_next_id() == old(
                    self,
                ).spec_next_id(),
            },
    {
        if self.next_id == i32::MAX {
            return Err(());
        }
        if !self.is_unique(UserField::Username, username) {
            return Err(());
        }
        if !self.is_unique(UserField::Email, email) {
            return Err(());
        }
        let id = self.next_id;
        let user = User {
            id,
            username: username.clone(),
            role,
            email: email.clone(),
            password: password.clone(),
        };
        self.users.push(user);
        self.next_id = id + 1;
        proof {
            let oldv = old(self)@;
            let newv = self@;
            let nu = UserV {
                id: id as int,
                username: username@,
                role,
                email: email@,
                password: password@,
            };
            assert(newv =~= oldv.push(nu));
            assert forall|a: int|
                0 <= a < newv.len() implies 1 <= (#[trigger] newv[a]).id < self.spec_next_id() by {
                if a < oldv.len() {
                    assert(1 <= oldv[a].id < old(self).spec_next_id());
                }
            }
            assert forall|a: int, b: int|
                0 <= a < b < newv.len() implies (#[trigger] newv[a]).id != (#[trigger] newv[b]).id
                && newv[a].username != newv[b].username && newv[a].email != newv[b].email by {
                if b == oldv.len() {
                    assert(spec_field_of(oldv[a], UserField::Username) != username@);
                    assert(spec_field_of(oldv[a], UserField::Email) != email@);
                    assert(oldv[a].id < id as int);
                }
            }
            assert forall|a: int|
                0 <= a < newv.len() implies exists|p: Seq<char>|
                is_hash_of((#[trigger] newv[a]).password, p) by {
                if a < oldv.len() {
                    assert(exists|p: Seq<char>| is_hash_of(oldv[a].password, p));
                } else {
                    assert(newv[a].password == password@);
                }
            }
        }
        Ok(id)
    }

    /// Sets the role of the account with the given identifier and
    /// returns the identifier, as the backing storage's row update
    /// would. Fails exactly when no such account exists; nothing is
    /// changed then.
    pub fn update_role_returning_id(&mut self, id: i32, new_role: Role) -> (r: Result<i32, ()>)
        requires
            old(self).wf(),
        ensures
            final(self).wf(),
            match r {
                Ok(rid) => rid == id && (exists|i: int|
                    0 <= i < old(self)@.len() && (#[trigger] old(self)@[i]).id == id
                        && final(self)@ == old(self)@.update(
                        i,
                        (UserV { role: new_role, ..old(self)@[i] }),
                    )),
                Err(_) => final(self)@ == old(self)@ && (spec_find_by_id(old(self)@, id as int)
                    is None),
            },
            final(self).spec_next_id() == old(self).spec_next_id(),
    {
        proof {
            assert(self@.skip(0) =~= self@);
        }
        let mut i: usize = 0;
        while i < self.users.len()
            invariant
                i <= self@.len(),
                *self == *old(self),
                old(self).wf(),
                forall|j: int| 0 <= j < i ==> (#[trigger] self@[j]).id != id,
                spec_find_by_id(self@, id as int) == spec_find_by_id(self@.skip(i as int), id as int),
            decreases self@.len() - i,
        {
            proof {
                assert(self@.skip(i as int).drop_first() =~= self@.skip(i + 1));
                assert(self@.skip(i as int)[0] == self@[i as int]);
            }
            if self.users[i].id == id {
                let ghost before = self@;
                let ghost idx = i as int;
                let user = &mut self.users[i];
                proof {
                    assert(old(self)@[idx].id == id);
                }
                user.set_role(new_role);
                proof {
                    let newv = self@;
                    assert(newv =~= before.update(idx, (UserV { role: new_role, ..before[idx] })));
                    assert forall|a: int|
                        0 <= a < newv.len() implies (#[trigger] newv[a]).id == before[a].id
                        && newv[a].username == before[a].username && newv[a].email
                        == before[a].email && newv[a].password == before[a].password by {}
                    assert forall|a: int|
                        0 <= a < newv.len() implies 1 <= (#[trigger] newv[a]).id
                        < self.spec_next_id() by {
                        assert(1 <= before[a].id < old(self).spec_next_id());
                    }
                    assert forall|a: int, b: int|
                        0 <= a < b < newv.len() implies (#[trigger] newv[a]).id
                        != (#[trigger] newv[b]).id && newv[a].username != newv[b].username
                        && newv[a].email != newv[b].email by {
                        assert(before[a].id != before[b].id && before[a].username
                            != before[b].username && before[a].email != before[b].email);
                    }
                    assert forall|a: int|
                        0 <= a < newv.len() implies exists|p: Seq<char>|
                        is_hash_of((#[trigger] newv[a]).password, p) by {
                        assert(exists|p: Seq<char>| is_hash_of(before[a].password, p));
                    }
                }
                return Ok(id);
            }
            i = i + 1;
        }
        proof {
            assert(self@.skip(self@.len() as int) =~= Seq::<UserV>::empty());
        }
        Err(())
    }
}

} // verus!
