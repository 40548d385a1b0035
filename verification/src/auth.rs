//! The signed-in user as the session keeps it.
use vstd::prelude::*;

use crate::db::AuthUser;

verus! {

/// The user a session belongs to.
pub struct CurrentUser {
    pub id: i32,
    pub username: String,
    pub email: String,
}

/// The session record for a user who has just proved their password.
pub fn session_user(u: &AuthUser) -> (r: CurrentUser)
    ensures
        r.id == u.id,
        r.username@ == u.username@,
        r.email@ == u.email@,
{
    CurrentUser { id: u.id, username: u.username.clone(), email: u.email.clone() }
}

/// The session record for a freshly registered account, which has no
/// email yet.
pub fn new_account_user(id: i32, username: &str) -> (r: CurrentUser)
    ensures
        r.id == id,
        r.username@ == username@,
        r.email@ == Seq::<char>::empty(),
{
    CurrentUser { id, username: username.to_owned(), email: String::new() }
}

} // verus!
