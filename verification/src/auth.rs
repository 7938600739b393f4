//! The authentication service: validates credentials against the stored
//! user, profile and permission records and populates the session store.
//!
//! Unknown username, missing profile and wrong password all surface as the
//! one `InvalidCredentials` error, so a caller cannot learn which half of
//! the credential pair was wrong.

use vstd::prelude::*;

use crate::errors::PosError;
use crate::session::{session_eq, LoginData, Session, SessionStore};
use crate::store::{find_profile, find_user, profile_codes, Store};

verus! {

/// Whether bcrypt accepts `password` against the stored digest `hashed`:
/// a function of the two arguments alone.
pub uninterp spec fn bcrypt_accepts(password: Seq<char>, hashed: Seq<char>) -> bool;

/// Relies on bcrypt::verify, which re-derives the digest of `password`
/// deterministically from the salt and cost carried inside `hashed` and
/// compares. A digest that bcrypt cannot parse accepts no password.
#[verifier::external_body]
fn password_matches(password: &str, hashed: &str) -> (r: bool)
    ensures
        r == bcrypt_accepts(password@, hashed@),
{
    matches!(bcrypt::verify(password, hashed), Ok(true))
}

/// The error `login` answers the given credentials with, or `None` when
/// login succeeds, step by step: an active session forbids a second login;
/// an unknown username, a dangling profile reference and a rejected password
/// are indistinguishable; then both the user and its profile must be active.
pub open spec fn login_error(
    store: Store,
    sessions: SessionStore,
    username: Seq<char>,
    password: Seq<char>,
) -> Option<PosError> {
    if sessions.slot is Some {
        Some(PosError::AlreadyLogged)
    } else {
        match find_user(store.users@, username) {
            None => Some(PosError::InvalidCredentials),
            Some(j) => {
                let u = store.users@[j];
                match find_profile(store.profiles@, u.profile_id) {
                    None => Some(PosError::InvalidCredentials),
                    Some(k) => {
                        let p = store.profiles@[k];
                        if !bcrypt_accepts(password, u.password_hash@) {
                            Some(PosError::InvalidCredentials)
                        } else if !u.is_active || !p.is_active {
                            Some(PosError::AccountInactive)
                        } else {
                            None
                        }
                    },
                }
            },
        }
    }
}

/// The session a successful login of `username` constructs: the identity
/// fields of the user row and its profile row, and the permission codes the
/// profile owns. Meaningful when both lookups succeed.
pub open spec fn is_login_session(store: Store, username: Seq<char>, s: Session) -> bool {
    let u = store.users@[find_user(store.users@, username)->0];
    let p = store.profiles@[find_profile(store.profiles@, u.profile_id)->0];
    &&& s.user_id == u.id
    &&& s.username == u.username
    &&& s.profile_id == p.id
    &&& s.profile_name == p.name
    &&& s.email == u.email
    &&& s.permissions@ == profile_codes(store.profile_permissions@, store.permissions@, p.id)
}

/// Authenticates `data` against the store and, on success, installs the new
/// session — the only mutation — and returns a copy of it.
pub fn login(store: &Store, sessions: &mut SessionStore, data: &LoginData) -> (r: Result<
    Session,
    PosError,
>)
    ensures
        match r {
            Ok(s) => {
                &&& login_error(*store, *old(sessions), data.username@, data.password@) is None
                &&& is_login_session(*store, data.username@, s)
                &&& final(sessions).slot is Some
                &&& session_eq(final(sessions).slot->0, s)
            },
            Err(e) => {
                &&& login_error(*store, *old(sessions), data.username@, data.password@) == Some(e)
                &&& *final(sessions) == *old(sessions)
            },
        },
{
    if sessions.is_active() {
        return Err(PosError::AlreadyLogged);
    }
    let j = match store.find_user_index(&data.username) {
        None => return Err(PosError::InvalidCredentials),
        Some(j) => j,
    };
    let k = match store.find_profile_index(store.users[j].profile_id) {
        None => return Err(PosError::InvalidCredentials),
        Some(k) => k,
    };
    if !password_matches(&data.password, &store.users[j].password_hash) {
        return Err(PosError::InvalidCredentials);
    }
    if !store.users[j].is_active || !store.profiles[k].is_active {
        return Err(PosError::AccountInactive);
    }
    let permissions = store.codes_for_profile(store.profiles[k].id);
    let session = Session {
        user_id: store.users[j].id.clone(),
        username: store.users[j].username.clone(),
        profile_id: store.profiles[k].id,
        profile_name: store.profiles[k].name.clone(),
        email: store.users[j].email.clone(),
        permissions,
    };
    let copy = session.clone();
    match sessions.set(session) {
        Ok(()) => Ok(copy),
        Err(e) => {
            proof {
                assert(false);
            }
            Err(e)
        },
    }
}

/// Clears the session store; `NotLogged` when no session was active.
pub fn logout(sessions: &mut SessionStore) -> (r: Result<(), PosError>)
    ensures
        match r {
            Ok(()) => old(sessions).slot is Some && final(sessions).slot is None,
            Err(e) => {
                &&& e == PosError::NotLogged
                &&& old(sessions).slot is None
                &&& *final(sessions) == *old(sessions)
            },
        },
{
    if !sessions.is_active() {
        return Err(PosError::NotLogged);
    }
    sessions.clear();
    Ok(())
}

/// A copy of the active session; `NotLogged` when none exists.
pub fn get_session(sessions: &SessionStore) -> (r: Result<Session, PosError>)
    ensures
        match r {
            Ok(s) => sessions.slot is Some && session_eq(s, sessions.slot->0),
            Err(e) => e == PosError::NotLogged && sessions.slot is None,
        },
{
    crate::session::get_current_session(sessions)
}

} // verus!
