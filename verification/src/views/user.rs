use vstd::prelude::*;
use crate::models::users::{self, pid_text, uuid_text};

verus! {

/// The signed-in user as the API shows them.
#[derive(Debug)]
pub struct CurrentResponse {
    pub pid: String,
    pub first_name: String,
    pub last_name: String,
    pub email: String,
    pub location: Option<String>,
}

/// A user as administrators see them.
#[derive(Debug)]
pub struct AdminUserResponse {
    pub pid: String,
    pub email: String,
    pub first_name: String,
    pub last_name: String,
    pub phone: Option<String>,
    pub location: Option<String>,
    pub is_active: bool,
    pub is_blocked: bool,
    pub is_superuser: bool,
    pub created_at: String,
}

impl CurrentResponse {
    /// The user's public id (hyphenated), names, email and location.
    pub fn new(user: &users::Model) -> (res: Self)
        ensures
            res.pid@ == uuid_text(user.pid),
            res.first_name == user.first_name,
            res.last_name == user.last_name,
            res.email == user.email,
            res.location == user.location,
    {
        CurrentResponse {
            pid: pid_text(user.pid),
            first_name: user.first_name.clone(),
            last_name: user.last_name.clone(),
            email: user.email.clone(),
            location: user.location.clone(),
        }
    }
}

impl AdminUserResponse {
    /// The user's public id (hyphenated), contact details, flags and the text
    /// of their creation instant.
    pub fn new(user: &users::Model) -> (res: Self)
        ensures
            res.pid@ == uuid_text(user.pid),
            res.email == user.email,
            res.first_name == user.first_name,
            res.last_name == user.last_name,
            res.phone == user.phone,
            res.location == user.location,
            res.is_active == user.is_active,
            res.is_blocked == user.is_blocked,
            res.is_superuser == user.is_superuser,
            res.created_at == user.created_at,
    {
        AdminUserResponse {
            pid: pid_text(user.pid),
            email: user.email.clone(),
            first_name: user.first_name.clone(),
            last_name: user.last_name.clone(),
            phone: user.phone.clone(),
            location: user.location.clone(),
            is_active: user.is_active,
            is_blocked: user.is_blocked,
            is_superuser: user.is_superuser,
            created_at: user.created_at.clone(),
        }
    }
}

} // verus!
