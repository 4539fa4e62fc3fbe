//! Users and signup validation. Password hashing and the session store are
//! external collaborators; the checks here work on what their queries
//! returned.

use vstd::prelude::*;

verus! {

/// One account row. The password field holds the stored hash, never a clear
/// password, and stays private.
#[derive(Clone)]
pub struct User {
    id: i64,
    pub username: String,
    password: String,
}

impl User {
    pub closed spec fn spec_id(self) -> i64 {
        self.id
    }

    pub closed spec fn spec_password(self) -> Seq<char> {
        self.password@
    }

    pub closed spec fn spec_username(self) -> Seq<char> {
        self.username@
    }

    pub fn new(id: i64, username: String, password: String) -> (r: Self)
        ensures
            r.spec_id() == id,
            r.spec_username() == username@,
            r.spec_password() == password@,
    {
        User { id, username, password }
    }

    pub fn id(&self) -> (r: i64)
        ensures
            r == self.spec_id(),
    {
        self.id
    }

    /// The stored hash, which also serves as the session authentication
    /// value: a password change invalidates the session.
    pub fn password_hash(&self) -> (r: &str)
        ensures
            r@ == self.spec_password(),
    {
        self.password.as_str()
    }
}

/// One validation message per field of the signup form; an empty message
/// means the field passed.
#[derive(Debug, Clone)]
pub struct UserErrorState {
    pub username: String,
    pub password: String,
}

/// The message the username field earns: required when empty, unique when
/// the store already holds `taken_rows` accounts under it.
pub open spec fn username_message(username: Seq<char>, taken_rows: u32) -> Seq<char> {
    if username.len() == 0 {
        "Username Required"@
    } else if taken_rows != 0 {
        "Usename must be unique"@
    } else {
        Seq::<char>::empty()
    }
}

/// The message the password field earns: required when empty.
pub open spec fn password_message(password: Seq<char>) -> Seq<char> {
    if password.len() == 0 {
        "Password Required"@
    } else {
        Seq::<char>::empty()
    }
}

/// Validates a signup. `username_taken_rows` is how many accounts the store
/// already holds under the submitted username; it is read only when the
/// username is filled in. Returns `None` exactly when both checks passed.
pub fn check_user_errors(username: &str, password: &str, username_taken_rows: u32) -> (r: Option<
    UserErrorState,
>)
    ensures
        r is None <==> (username@.len() > 0 && username_taken_rows == 0 && password@.len() > 0),
        r matches Some(e) ==> {
            &&& e.username@ == username_message(username@, username_taken_rows)
            &&& e.password@ == password_message(password@)
        },
{
    proof {
        reveal_strlit("Username Required");
        reveal_strlit("Usename must be unique");
        reveal_strlit("Password Required");
    }
    let new_error = UserErrorState {
        username: if username.is_empty() {
            "Username Required".to_owned()
        } else if username_taken_rows != 0 {
            "Usename must be unique".to_owned()
        } else {
            String::new()
        },
        password: if password.is_empty() {
            "Password Required".to_owned()
        } else {
            String::new()
        },
    };
    if new_error.username.as_str().is_empty() && new_error.password.as_str().is_empty() {
        None
    } else {
        Some(new_error)
    }
}

} // verus!
