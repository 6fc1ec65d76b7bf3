//! The credentials that a session signs its requests with.

use vstd::prelude::*;

verus! {

/// An account's e-mail address and API key.
#[derive(Debug, Clone, PartialEq)]
pub struct UserData {
    pub email: String,
    pub api_key: String,
}

/// Both parts of the credentials are filled in.
pub open spec fn credentials_valid(u: UserData) -> bool {
    u.email@.len() > 0 && u.api_key@.len() > 0
}

impl UserData {
    pub fn new(email: String, api_key: String) -> (r: UserData)
        ensures
            r.email == email,
            r.api_key == api_key,
    {
        UserData { email, api_key }
    }

    /// Whether requests may be signed with these credentials.
    pub fn is_valid(&self) -> (r: bool)
        ensures
            r == credentials_valid(*self),
    {
        self.email.as_str().unicode_len() > 0 && self.api_key.as_str().unicode_len() > 0
    }
}

} // verus!
