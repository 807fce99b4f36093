use camion::role::Role;
use camion::security::password_salt_and_hash;
use camion::store::{UserField, UserPostgres, UserStore};
use camion::token::Claims;
use camion::users::{searchable_as_seen_from, User};

fn filled_store() -> (UserStore, String) {
    let mut store = UserStore::new();
    let hash = password_salt_and_hash(&"pass".to_string()).unwrap();
    store
        .insert_returning_id(
            &"admin".to_string(),
            &"a0@test.fr".to_string(),
            &hash,
            Role::Admin,
        )
        .unwrap();
    store
        .insert_returning_id(
            &"author".to_string(),
            &"a1@test.fr".to_string(),
            &hash,
            Role::Author,
        )
        .unwrap();
    store
        .insert_returning_id(
            &"noneuser".to_string(),
            &"a2@test.fr".to_string(),
            &hash,
            Role::NoRole,
        )
        .unwrap();
    (store, hash)
}

#[test]
fn insert_assigns_sequential_ids() {
    let (store, _) = filled_store();
    assert_eq!(store.len(), 3);
    assert_eq!(store.find_by_username(&"admin".to_string()).unwrap().id, 1);
    assert_eq!(store.find_by_username(&"author".to_string()).unwrap().id, 2);
    assert_eq!(store.find_by_id(3).unwrap().username, "noneuser");
}

#[test]
fn duplicate_unique_fields_rejected() {
    let (mut store, hash) = filled_store();
    let taken_name =
        store.insert_returning_id(&"admin".to_string(), &"new@test.fr".to_string(), &hash, Role::NoRole);
    assert!(taken_name.is_err());
    let taken_email =
        store.insert_returning_id(&"newuser".to_string(), &"a0@test.fr".to_string(), &hash, Role::NoRole);
    assert!(taken_email.is_err());
    assert_eq!(store.len(), 3);
    assert!(!store.is_unique(UserField::Email, &"a0@test.fr".to_string()));
    assert!(store.is_unique(UserField::Email, &"new@test.fr".to_string()));
}

#[test]
fn update_role_returns_id() {
    let (mut store, _) = filled_store();
    assert_eq!(store.update_role_returning_id(3, Role::Author).unwrap(), 3);
    assert_eq!(store.find_by_id(3).unwrap().role, Role::Author);
    // Nothing else changed.
    assert_eq!(store.find_by_id(1).unwrap().role, Role::Admin);
    assert!(store.update_role_returning_id(99, Role::Admin).is_err());
}

#[test]
fn role_codes_roundtrip() {
    assert_eq!(Role::Admin.code(), 0);
    assert_eq!(Role::Author.code(), 1);
    assert_eq!(Role::NoRole.code(), 2);
    assert_eq!(Role::from(0), Role::Admin);
    assert_eq!(Role::from(1), Role::Author);
    assert_eq!(Role::from(2), Role::NoRole);
    // Unknown storage codes fall back to the bare role.
    assert_eq!(Role::from(7), Role::NoRole);
    assert_eq!(Role::from(-1), Role::NoRole);
}

#[test]
fn role_names_roundtrip() {
    for role in [Role::Admin, Role::Author, Role::NoRole] {
        assert_eq!(Role::from_name(&role.name()), Some(role));
    }
    assert_eq!(Role::from_name(&"Root".to_string()), None);
    assert_eq!(Role::NoRole.name(), "None");
}

#[test]
fn user_postgres_conversion() {
    let row = UserPostgres {
        id: 9,
        username: "rowuser".to_string(),
        role: 1,
        email: "row@test.fr".to_string(),
        password: "hash".to_string(),
    };
    let user = row.into_user();
    assert_eq!(user.id, 9);
    assert_eq!(user.role, Role::Author);
    assert_eq!(user.username, "rowuser");
}

#[test]
fn search_visibility_rules() {
    let (store, _) = filled_store();
    let users: Vec<User> = [1, 2, 3]
        .iter()
        .map(|id| store.find_by_id(*id).unwrap())
        .collect();

    // Anonymous viewers see only users that carry a role.
    let anonymous = searchable_as_seen_from(&users, &None);
    assert_eq!(anonymous.len(), 2);
    assert!(anonymous.iter().all(|u| u.email.is_none()));

    // Admins see everyone, private fields included.
    let admin_claims = Some(Claims { id: 1, role: Role::Admin });
    let as_admin = searchable_as_seen_from(&users, &admin_claims);
    assert_eq!(as_admin.len(), 3);
    assert!(as_admin.iter().all(|u| u.email.is_some()));

    // A bare user finds themselves, sees their own email and only the
    // public fields of others.
    let own_claims = Some(Claims { id: 3, role: Role::NoRole });
    let as_none = searchable_as_seen_from(&users, &own_claims);
    assert_eq!(as_none.len(), 3);
    assert_eq!(as_none[0].email, None);
    assert_eq!(as_none[2].email, Some("a2@test.fr".to_string()));
}

#[test]
fn user_projection_hides_password() {
    let (store, _) = filled_store();
    let user = store.find_by_id(2).unwrap();
    let seen = user.as_seen_from(&Some(Claims { id: 2, role: Role::Author }));
    assert_eq!(seen.id, 2);
    assert_eq!(seen.username, "author");
    assert_eq!(seen.role, Role::Author);
    assert_eq!(seen.email, Some("a1@test.fr".to_string()));
    let seen_by_other = user.as_seen_from(&Some(Claims { id: 1, role: Role::NoRole }));
    assert_eq!(seen_by_other.email, None);
}

#[test]
fn searchability_matches_policy() {
    let (store, _) = filled_store();
    let hidden = store.find_by_id(3).unwrap();
    assert!(!hidden.is_searchable_by(&None));
    assert!(hidden.is_searchable_by(&Some(Claims { id: 1, role: Role::Admin })));
    assert!(hidden.is_searchable_by(&Some(Claims { id: 3, role: Role::NoRole })));
    assert!(!hidden.is_searchable_by(&Some(Claims { id: 2, role: Role::Author })));
    let visible = store.find_by_id(2).unwrap();
    assert!(visible.is_searchable_by(&None));
}
