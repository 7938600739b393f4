//! The single-slot session store and the permission evaluator.
//!
//! At most one authenticated session exists at a time. `set` refuses to
//! overwrite an existing session; every reader receives a copy of the slot,
//! never a reference into it, so no borrow outlives the holder's guard.

use vstd::prelude::*;

use crate::errors::PosError;

verus! {

/// The authenticated actor: identity fields copied from the user and
/// profile rows at login, plus the permission codes the profile owns.
#[derive(Debug)]
pub struct Session {
    pub user_id: String,
    pub username: String,
    pub profile_id: i32,
    pub profile_name: String,
    pub email: String,
    pub permissions: Vec<String>,
}

/// The credentials a login request carries.
#[derive(Debug)]
pub struct LoginData {
    pub username: String,
    pub password: String,
}

/// Whether `perms` holds the permission code `code`.
pub open spec fn contains_code(perms: Seq<String>, code: Seq<char>) -> bool {
    exists|i: int| 0 <= i < perms.len() && perms[i]@ == code
}

/// The two sessions carry the same identity and the same permission codes.
pub open spec fn session_eq(a: Session, b: Session) -> bool {
    &&& a.user_id == b.user_id
    &&& a.username == b.username
    &&& a.profile_id == b.profile_id
    &&& a.profile_name == b.profile_name
    &&& a.email == b.email
    &&& a.permissions@ == b.permissions@
}

impl Clone for Session {
    /// An owned copy: what every reader of the session store receives.
    fn clone(&self) -> (r: Self)
        ensures
            session_eq(r, *self),
    {
        let permissions = self.permissions.clone();
        proof {
            assert forall|i: int| 0 <= i < permissions@.len() implies permissions@[i]
                == self.permissions@[i] by {
                assert(cloned::<String>(self.permissions@[i], permissions@[i]));
            }
            assert(permissions@ =~= self.permissions@);
        }
        Session {
            user_id: self.user_id.clone(),
            username: self.username.clone(),
            profile_id: self.profile_id,
            profile_name: self.profile_name.clone(),
            email: self.email.clone(),
            permissions,
        }
    }
}

impl Session {
    /// Pure permission evaluator: true iff `code` is one of this session's
    /// permission codes.
    pub fn has_permission(&self, code: &str) -> (r: bool)
        ensures
            r == contains_code(self.permissions@, code@),
    {
        let wanted: String = code.to_owned();
        let n = self.permissions.len();
        let mut i: usize = 0;
        while i < n
            invariant
                i <= n == self.permissions@.len(),
                wanted@ == code@,
                forall|j: int| 0 <= j < i ==> self.permissions@[j]@ != code@,
            decreases n - i,
        {
            if self.permissions[i] == wanted {
                return true;
            }
            i = i + 1;
        }
        false
    }
}

/// The process-wide holder of at most one session. The embedding
/// application owns one of these behind its mutual-exclusion lock; the
/// operations themselves never block.
pub struct SessionStore {
    pub slot: Option<Session>,
}

impl SessionStore {
    /// An empty store: nobody is logged in.
    pub fn new() -> (r: SessionStore)
        ensures
            r.slot is None,
    {
        SessionStore { slot: None }
    }

    /// Whether a session is present.
    pub fn is_active(&self) -> (r: bool)
        ensures
            r == (self.slot is Some),
    {
        self.slot.is_some()
    }

    /// Installs a session. Never an overwrite: fails with `AlreadyLogged`
    /// when a session is already present, leaving it untouched.
    pub fn set(&mut self, session: Session) -> (r: Result<(), PosError>)
        ensures
            match r {
                Ok(()) => old(self).slot is None && final(self).slot == Some(session),
                Err(e) => {
                    &&& e == PosError::AlreadyLogged
                    &&& old(self).slot is Some
                    &&& *final(self) == *old(self)
                },
            },
    {
        if self.slot.is_some() {
            return Err(PosError::AlreadyLogged);
        }
        self.slot = Some(session);
        Ok(())
    }

    /// Empties the slot.
    pub fn clear(&mut self)
        ensures
            final(self).slot is None,
    {
        self.slot = None;
    }

    /// A copy of the current session, if any.
    pub fn get(&self) -> (r: Option<Session>)
        ensures
            match r {
                Some(s) => self.slot is Some && session_eq(s, self.slot->0),
                None => self.slot is None,
            },
    {
        match &self.slot {
            Some(s) => Some(s.clone()),
            None => None,
        }
    }
}

/// The current session, or `NotLogged` when none exists.
pub fn get_current_session(sessions: &SessionStore) -> (r: Result<Session, PosError>)
    ensures
        match r {
            Ok(s) => sessions.slot is Some && session_eq(s, sessions.slot->0),
            Err(e) => e == PosError::NotLogged && sessions.slot is None,
        },
{
    match sessions.get() {
        Some(s) => Ok(s),
        None => Err(PosError::NotLogged),
    }
}

/// Session-store read composed with the permission evaluator: `NotLogged`
/// when no session exists, `PermissionDenied` when the session lacks `code`,
/// otherwise a copy of the session (callers use its `user_id` for audit
/// fields).
pub fn require_permission(sessions: &SessionStore, code: &str) -> (r: Result<Session, PosError>)
    ensures
        match r {
            Ok(s) => {
                &&& sessions.slot is Some
                &&& session_eq(s, sessions.slot->0)
                &&& contains_code(sessions.slot->0.permissions@, code@)
            },
            Err(e) => {
                ||| (e == PosError::NotLogged && sessions.slot is None)
                ||| (e == PosError::PermissionDenied && sessions.slot is Some && !contains_code(
                    sessions.slot->0.permissions@,
                    code@,
                ))
            },
        },
{
    let session = get_current_session(sessions)?;
    if !session.has_permission(code) {
        return Err(PosError::PermissionDenied);
    }
    Ok(session)
}

} // verus!
