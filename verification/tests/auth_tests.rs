use pos_core::auth::{get_session, login, logout};
use pos_core::domain::{Permission, Profile, ProfilePermission, UserRecord};
use pos_core::session::{LoginData, SessionStore};
use pos_core::store::Store;
use pos_core::PosError;

fn seeded_store(password: &str) -> Store {
    let mut store = Store::new();
    store.profiles.push(Profile {
        id: 1,
        name: "cashier".to_string(),
        description: "sells".to_string(),
        is_active: true,
    });
    store.permissions.push(Permission {
        id: 10,
        code: "sales.view".to_string(),
        name: "view sales".to_string(),
        module: "sales".to_string(),
    });
    store.permissions.push(Permission {
        id: 11,
        code: "sales.create".to_string(),
        name: "create sales".to_string(),
        module: "sales".to_string(),
    });
    store.profile_permissions.push(ProfilePermission { profile_id: 1, permission_id: 10 });
    store.profile_permissions.push(ProfilePermission { profile_id: 1, permission_id: 11 });
    store.users.push(UserRecord {
        id: "u1".to_string(),
        username: "clerk".to_string(),
        email: "clerk@example.com".to_string(),
        password_hash: bcrypt::hash(password, 4).unwrap(),
        first_name: "Cleo".to_string(),
        last_name: "Ramos".to_string(),
        profile_id: 1,
        is_active: true,
        created_by: "seed".to_string(),
        updated_by: "seed".to_string(),
        created_at: "2026-01-05 00:00:00".to_string(),
        updated_at: "2026-01-05 00:00:00".to_string(),
    });
    store
}

fn credentials(username: &str, password: &str) -> LoginData {
    LoginData { username: username.to_string(), password: password.to_string() }
}

#[test]
fn login_populates_the_session() {
    let store = seeded_store("hunter2");
    let mut sessions = SessionStore::new();
    let session = login(&store, &mut sessions, &credentials("clerk", "hunter2")).unwrap();
    assert_eq!(session.user_id, "u1");
    assert_eq!(session.username, "clerk");
    assert_eq!(session.profile_id, 1);
    assert_eq!(session.profile_name, "cashier");
    assert_eq!(session.email, "clerk@example.com");
    assert_eq!(session.permissions, vec!["sales.view", "sales.create"]);
    assert!(sessions.is_active());
}

#[test]
fn login_while_logged_never_replaces_the_session() {
    let store = seeded_store("hunter2");
    let mut sessions = SessionStore::new();
    login(&store, &mut sessions, &credentials("clerk", "hunter2")).unwrap();
    let second = login(&store, &mut sessions, &credentials("clerk", "hunter2"));
    assert_eq!(second.unwrap_err(), PosError::AlreadyLogged);
    assert_eq!(get_session(&sessions).unwrap().username, "clerk");
}

#[test]
fn wrong_password_and_unknown_username_are_indistinguishable() {
    let store = seeded_store("hunter2");

    let mut sessions = SessionStore::new();
    let wrong_password = login(&store, &mut sessions, &credentials("clerk", "letmein"))
        .unwrap_err();

    let mut sessions = SessionStore::new();
    let unknown_user = login(&store, &mut sessions, &credentials("nobody", "hunter2"))
        .unwrap_err();

    assert_eq!(wrong_password, PosError::InvalidCredentials);
    assert_eq!(unknown_user, PosError::InvalidCredentials);
    assert_eq!(wrong_password, unknown_user);
    assert_eq!(wrong_password.message(), unknown_user.message());
}

#[test]
fn login_failure_leaves_no_session() {
    let store = seeded_store("hunter2");
    let mut sessions = SessionStore::new();
    login(&store, &mut sessions, &credentials("clerk", "letmein")).unwrap_err();
    assert!(!sessions.is_active());
}

#[test]
fn inactive_user_cannot_authenticate() {
    let mut store = seeded_store("hunter2");
    store.users[0].is_active = false;
    let mut sessions = SessionStore::new();
    let e = login(&store, &mut sessions, &credentials("clerk", "hunter2")).unwrap_err();
    assert_eq!(e, PosError::AccountInactive);
}

#[test]
fn inactive_profile_blocks_its_users() {
    let mut store = seeded_store("hunter2");
    store.profiles[0].is_active = false;
    let mut sessions = SessionStore::new();
    let e = login(&store, &mut sessions, &credentials("clerk", "hunter2")).unwrap_err();
    assert_eq!(e, PosError::AccountInactive);
}

#[test]
fn dangling_profile_reads_as_invalid_credentials() {
    let mut store = seeded_store("hunter2");
    store.profiles.clear();
    let mut sessions = SessionStore::new();
    let e = login(&store, &mut sessions, &credentials("clerk", "hunter2")).unwrap_err();
    assert_eq!(e, PosError::InvalidCredentials);
}

#[test]
fn wrong_password_is_rejected_before_activity_is_checked() {
    // An inactive account with a wrong password reads as invalid
    // credentials, not as inactive: the password is verified first.
    let mut store = seeded_store("hunter2");
    store.users[0].is_active = false;
    let mut sessions = SessionStore::new();
    let e = login(&store, &mut sessions, &credentials("clerk", "letmein")).unwrap_err();
    assert_eq!(e, PosError::InvalidCredentials);
}

#[test]
fn logout_clears_exactly_one_session() {
    let store = seeded_store("hunter2");
    let mut sessions = SessionStore::new();
    assert_eq!(logout(&mut sessions).unwrap_err(), PosError::NotLogged);
    login(&store, &mut sessions, &credentials("clerk", "hunter2")).unwrap();
    assert!(logout(&mut sessions).is_ok());
    assert!(!sessions.is_active());
    assert_eq!(logout(&mut sessions).unwrap_err(), PosError::NotLogged);
}

#[test]
fn get_session_requires_a_session() {
    let mut sessions = SessionStore::new();
    assert_eq!(get_session(&sessions).unwrap_err(), PosError::NotLogged);
    let store = seeded_store("hunter2");
    login(&store, &mut sessions, &credentials("clerk", "hunter2")).unwrap();
    assert_eq!(get_session(&sessions).unwrap().email, "clerk@example.com");
}
