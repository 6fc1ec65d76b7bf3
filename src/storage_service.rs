//! What is kept of the credentials between sessions, and how its failures read.

use vstd::prelude::*;
use crate::errors::{AppError, ErrorModel};
use crate::user::UserData;

verus! {

/// The key under which the e-mail address is stored.
pub const STORAGE_USER_EMAIL: &'static str = "user_email";

/// The key under which the API key is stored.
pub const STORAGE_USER_API_KEY: &'static str = "user_api_key";

/// The error for a failed storage step: `Failed to <action>: <detail>`.
pub open spec fn storage_failure(action: Seq<char>, detail: Seq<char>) -> ErrorModel {
    ErrorModel::Storage { message: "Failed to "@ + action + ": "@ + detail }
}

/// What a read of the store returned: the entry, if any, or why it failed.
pub open spec fn stored_view(x: Result<Option<String>, String>) -> Result<Option<Seq<char>>, Seq<char>> {
    match x {
        Ok(Some(s)) => Ok(Some(s@)),
        Ok(None) => Ok(None),
        Err(d) => Err(d@),
    }
}

/// The e-mail address and API key of restored credentials, or the error.
pub open spec fn loaded_view(r: Result<Option<UserData>, AppError>) -> Result<Option<(Seq<char>, Seq<char>)>, ErrorModel> {
    match r {
        Ok(Some(u)) => Ok(Some((u.email@, u.api_key@))),
        Ok(None) => Ok(None),
        Err(e) => Err(e@),
    }
}

/// The credentials that two reads of the store give: a failed read is reported,
/// the e-mail address's first; credentials come back only when both entries are
/// there and neither is empty.
pub open spec fn restored(
    email: Result<Option<Seq<char>>, Seq<char>>,
    api_key: Result<Option<Seq<char>>, Seq<char>>,
) -> Result<Option<(Seq<char>, Seq<char>)>, ErrorModel> {
    match (email, api_key) {
        (Err(d), _) => Err(storage_failure("load email"@, d)),
        (Ok(_), Err(d)) => Err(storage_failure("load API key"@, d)),
        (Ok(Some(m)), Ok(Some(k))) => if m.len() > 0 && k.len() > 0 {
            Ok(Some((m, k)))
        } else {
            Ok(None)
        },
        _ => Ok(None),
    }
}

/// Decisions on the credentials kept between sessions; the caller reads and
/// writes the store itself.
pub struct StorageService;

impl StorageService {
    /// The error reported when the storage step `action` fails with `detail`.
    pub fn failure(action: &str, detail: &str) -> (r: AppError)
        ensures
            r@ == storage_failure(action@, detail@),
    {
        let mut m = String::from_str("Failed to ");
        m.append(action);
        m.append(": ");
        m.append(detail);
        AppError::Storage { message: m }
    }

    /// The credentials restored from what the store returned for the e-mail
    /// address and for the API key: each entry read, or the reason it could not be.
    pub fn load_user_data(
        email: Result<Option<String>, String>,
        api_key: Result<Option<String>, String>,
    ) -> (r: Result<Option<UserData>, AppError>)
        ensures
            loaded_view(r) == restored(stored_view(email), stored_view(api_key)),
    {
        let email = match email {
            Err(d) => return Err(Self::failure("load email", d.as_str())),
            Ok(m) => m,
        };
        let api_key = match api_key {
            Err(d) => return Err(Self::failure("load API key", d.as_str())),
            Ok(k) => k,
        };
        match (email, api_key) {
            (Some(m), Some(k)) => {
                if m.as_str().unicode_len() > 0 && k.as_str().unicode_len() > 0 {
                    Ok(Some(UserData::new(m, k)))
                } else {
                    Ok(None)
                }
            },
            _ => Ok(None),
        }
    }
}

} // verus!
