//! User management data: the shape user records take towards callers, and
//! the patch struct a partial user update applies field by field.

use vstd::prelude::*;

use vstd::string::StrSliceExecFns;

use crate::domain::{Profile, UserRecord};

verus! {

/// A user as handed to callers: the stored record joined with the name of
/// its profile, and without the password hash.
#[derive(Clone, Debug)]
pub struct User {
    pub id: String,
    pub username: String,
    pub email: String,
    pub first_name: String,
    pub last_name: String,
    pub is_active: bool,
    pub profile_id: i32,
    pub profile_name: Option<String>,
    pub created_at: String,
    pub updated_at: String,
}

impl User {
    /// The caller-facing view of a stored user joined with its profile row,
    /// when one was found.
    pub fn from_with_profile(user: UserRecord, profile: Option<Profile>) -> (r: User)
        ensures
            r.id == user.id,
            r.username == user.username,
            r.email == user.email,
            r.first_name == user.first_name,
            r.last_name == user.last_name,
            r.is_active == user.is_active,
            r.profile_id == user.profile_id,
            r.profile_name == match profile {
                Some(p) => Some(p.name),
                None => None::<String>,
            },
            r.created_at == user.created_at,
            r.updated_at == user.updated_at,
    {
        User {
            id: user.id,
            username: user.username,
            email: user.email,
            first_name: user.first_name,
            last_name: user.last_name,
            is_active: user.is_active,
            profile_id: user.profile_id,
            profile_name: match profile {
                Some(p) => Some(p.name),
                None => None,
            },
            created_at: user.created_at,
            updated_at: user.updated_at,
        }
    }
}

/// Filters for listing users.
#[derive(Clone, Copy, Debug, PartialEq, Eq, Structural)]
pub struct UserFilter {
    pub status: Option<bool>,
    pub page: u64,
    pub limit: u64,
}

/// A page of users.
#[derive(Debug)]
pub struct UserListReturn {
    pub users: Vec<User>,
    pub total_pages: u64,
    pub total_items: u64,
}

/// A request to create a user; `password` is plain and is hashed before a
/// record is stored.
#[derive(Clone, Debug)]
pub struct NewUser {
    pub username: String,
    pub email: String,
    pub password: String,
    pub first_name: String,
    pub last_name: String,
    pub profile_id: i32,
    pub created_by: String,
}

/// A partial update of a user: only the present fields change. The password,
/// when present and nonempty, arrives already hashed — this core never
/// stores a plain password.
#[derive(Clone, Debug)]
pub struct UpdateUser {
    pub username: Option<String>,
    pub email: Option<String>,
    pub password: Option<String>,
    pub first_name: Option<String>,
    pub last_name: Option<String>,
    pub profile_id: Option<i32>,
    pub is_active: Option<bool>,
    pub updated_by: String,
}

impl UpdateUser {
    /// Applies the patch: each present field overwrites the record's, each
    /// absent field leaves it untouched. An empty password field changes
    /// nothing, so a caller cannot blank a credential by accident.
    pub fn apply_to(self, row: &mut UserRecord)
        ensures
            final(row).id == old(row).id,
            final(row).username == if self.username is Some {
                self.username->0
            } else {
                old(row).username
            },
            final(row).email == if self.email is Some {
                self.email->0
            } else {
                old(row).email
            },
            final(row).password_hash == if self.password is Some
                && self.password->0@.len() > 0 {
                self.password->0
            } else {
                old(row).password_hash
            },
            final(row).first_name == if self.first_name is Some {
                self.first_name->0
            } else {
                old(row).first_name
            },
            final(row).last_name == if self.last_name is Some {
                self.last_name->0
            } else {
                old(row).last_name
            },
            final(row).profile_id == if self.profile_id is Some {
                self.profile_id->0
            } else {
                old(row).profile_id
            },
            final(row).is_active == if self.is_active is Some {
                self.is_active->0
            } else {
                old(row).is_active
            },
            final(row).created_by == old(row).created_by,
            final(row).updated_by == self.updated_by,
            final(row).created_at == old(row).created_at,
            final(row).updated_at == old(row).updated_at,
    {
        if let Some(username) = self.username {
            row.username = username;
        }
        if let Some(email) = self.email {
            row.email = email;
        }
        if let Some(password) = self.password {
            if password.as_str().unicode_len() > 0 {
                row.password_hash = password;
            }
        }
        if let Some(first_name) = self.first_name {
            row.first_name = first_name;
        }
        if let Some(last_name) = self.last_name {
            row.last_name = last_name;
        }
        if let Some(profile_id) = self.profile_id {
            row.profile_id = profile_id;
        }
        if let Some(is_active) = self.is_active {
            row.is_active = is_active;
        }
        row.updated_by = self.updated_by;
    }
}

} // verus!
