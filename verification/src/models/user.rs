//! Users as the store holds them and as callers see them.
//!
//! Identifiers are 128-bit numbers; timestamps are whole seconds since the
//! Unix epoch.

use vstd::prelude::*;
use vstd::std_specs::convert::FromSpecImpl;

verus! {

/// The mathematical value of an optional text.
pub open spec fn text_of(value: Option<String>) -> Option<Seq<char>> {
    match value {
        Some(text) => Some(text@),
        None => None,
    }
}

/// A user as callers see it: everything but the password hash.
#[derive(Debug)]
pub struct User {
    pub id: u128,
    pub email: String,
    pub name: Option<String>,
    pub avatar_url: Option<String>,
    pub role: String,
    pub email_verified: bool,
    pub terms_accepted: bool,
    pub created_at: u64,
    pub updated_at: u64,
    pub last_login: Option<u64>,
}

/// The mathematical value of a [`User`].
pub ghost struct UserView {
    pub id: u128,
    pub email: Seq<char>,
    pub name: Option<Seq<char>>,
    pub avatar_url: Option<Seq<char>>,
    pub role: Seq<char>,
    pub email_verified: bool,
    pub terms_accepted: bool,
    pub created_at: u64,
    pub updated_at: u64,
    pub last_login: Option<u64>,
}

impl View for User {
    type V = UserView;

    open spec fn view(&self) -> UserView {
        UserView {
            id: self.id,
            email: self.email@,
            name: text_of(self.name),
            avatar_url: text_of(self.avatar_url),
            role: self.role@,
            email_verified: self.email_verified,
            terms_accepted: self.terms_accepted,
            created_at: self.created_at,
            updated_at: self.updated_at,
            last_login: self.last_login,
        }
    }
}

impl Clone for User {
    fn clone(&self) -> (copy: Self)
        ensures
            copy == *self,
    {
        User {
            id: self.id,
            email: self.email.clone(),
            name: self.name.clone(),
            avatar_url: self.avatar_url.clone(),
            role: self.role.clone(),
            email_verified: self.email_verified,
            terms_accepted: self.terms_accepted,
            created_at: self.created_at,
            updated_at: self.updated_at,
            last_login: self.last_login,
        }
    }
}

/// The public profile of a user.
#[derive(Debug)]
pub struct UserProfile {
    pub id: u128,
    pub email: String,
    pub name: Option<String>,
    pub avatar_url: Option<String>,
    pub role: String,
    pub created_at: u64,
    pub last_login: Option<u64>,
}

/// The mathematical value of a [`UserProfile`].
pub ghost struct UserProfileView {
    pub id: u128,
    pub email: Seq<char>,
    pub name: Option<Seq<char>>,
    pub avatar_url: Option<Seq<char>>,
    pub role: Seq<char>,
    pub created_at: u64,
    pub last_login: Option<u64>,
}

impl View for UserProfile {
    type V = UserProfileView;

    open spec fn view(&self) -> UserProfileView {
        UserProfileView {
            id: self.id,
            email: self.email@,
            name: text_of(self.name),
            avatar_url: text_of(self.avatar_url),
            role: self.role@,
            created_at: self.created_at,
            last_login: self.last_login,
        }
    }
}

impl UserView {
    /// The profile shown for this user.
    pub open spec fn profile(self) -> UserProfileView {
        UserProfileView {
            id: self.id,
            email: self.email,
            name: self.name,
            avatar_url: self.avatar_url,
            role: self.role,
            created_at: self.created_at,
            last_login: self.last_login,
        }
    }
}

/// A request to change the display name and email of a user.
#[derive(Debug)]
pub struct UpdateProfileRequest {
    pub name: String,
    pub email: String,
}

/// A request to replace a password, proving knowledge of the current one.
#[derive(Debug)]
pub struct ChangePasswordRequest {
    pub current_password: String,
    pub new_password: String,
    pub confirm_password: String,
}

/// A user as the store holds it, password hash included.
#[derive(Debug)]
pub struct UserRow {
    pub id: u128,
    pub email: String,
    pub password_hash: String,
    pub name: Option<String>,
    pub avatar_url: Option<String>,
    pub role: String,
    pub email_verified: bool,
    pub terms_accepted: bool,
    pub created_at: u64,
    pub updated_at: u64,
    pub last_login: Option<u64>,
}

/// The mathematical value of a [`UserRow`].
pub ghost struct UserRowView {
    pub id: u128,
    pub email: Seq<char>,
    pub password_hash: Seq<char>,
    pub name: Option<Seq<char>>,
    pub avatar_url: Option<Seq<char>>,
    pub role: Seq<char>,
    pub email_verified: bool,
    pub terms_accepted: bool,
    pub created_at: u64,
    pub updated_at: u64,
    pub last_login: Option<u64>,
}

impl UserRowView {
    /// The user that this row shows to callers: the row without its hash.
    pub open spec fn user(self) -> UserView {
        UserView {
            id: self.id,
            email: self.email,
            name: self.name,
            avatar_url: self.avatar_url,
            role: self.role,
            email_verified: self.email_verified,
            terms_accepted: self.terms_accepted,
            created_at: self.created_at,
            updated_at: self.updated_at,
            last_login: self.last_login,
        }
    }
}

impl View for UserRow {
    type V = UserRowView;

    open spec fn view(&self) -> UserRowView {
        UserRowView {
            id: self.id,
            email: self.email@,
            password_hash: self.password_hash@,
            name: text_of(self.name),
            avatar_url: text_of(self.avatar_url),
            role: self.role@,
            email_verified: self.email_verified,
            terms_accepted: self.terms_accepted,
            created_at: self.created_at,
            updated_at: self.updated_at,
            last_login: self.last_login,
        }
    }
}

impl Clone for UserRow {
    fn clone(&self) -> (copy: Self)
        ensures
            copy == *self,
    {
        UserRow {
            id: self.id,
            email: self.email.clone(),
            password_hash: self.password_hash.clone(),
            name: self.name.clone(),
            avatar_url: self.avatar_url.clone(),
            role: self.role.clone(),
            email_verified: self.email_verified,
            terms_accepted: self.terms_accepted,
            created_at: self.created_at,
            updated_at: self.updated_at,
            last_login: self.last_login,
        }
    }
}

impl From<UserRow> for User {
    fn from(row: UserRow) -> (user: User) {
        User {
            id: row.id,
            email: row.email,
            name: row.name,
            avatar_url: row.avatar_url,
            role: row.role,
            email_verified: row.email_verified,
            terms_accepted: row.terms_accepted,
            created_at: row.created_at,
            updated_at: row.updated_at,
            last_login: row.last_login,
        }
    }
}

impl FromSpecImpl<UserRow> for User {
    open spec fn obeys_from_spec() -> bool {
        true
    }

    open spec fn from_spec(row: UserRow) -> User {
        User {
            id: row.id,
            email: row.email,
            name: row.name,
            avatar_url: row.avatar_url,
            role: row.role,
            email_verified: row.email_verified,
            terms_accepted: row.terms_accepted,
            created_at: row.created_at,
            updated_at: row.updated_at,
            last_login: row.last_login,
        }
    }
}

impl From<User> for UserProfile {
    fn from(user: User) -> (profile: UserProfile) {
        UserProfile {
            id: user.id,
            email: user.email,
            name: user.name,
            avatar_url: user.avatar_url,
            role: user.role,
            created_at: user.created_at,
            last_login: user.last_login,
        }
    }
}

impl FromSpecImpl<User> for UserProfile {
    open spec fn obeys_from_spec() -> bool {
        true
    }

    open spec fn from_spec(user: User) -> UserProfile {
        UserProfile {
            id: user.id,
            email: user.email,
            name: user.name,
            avatar_url: user.avatar_url,
            role: user.role,
            created_at: user.created_at,
            last_login: user.last_login,
        }
    }
}

} // verus!
