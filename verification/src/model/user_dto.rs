//! Users as the database holds them.

use vstd::prelude::*;
use vstd::string::StringExecFns;

verus! {

/// A user row joined with its settings. `created_at` is in seconds since
/// 1970-01-01T00:00:00.
#[derive(Debug, Clone, PartialEq, Eq)]
pub struct UserDTO {
    pub id: i64,
    pub email: String,
    pub password: String,
    pub created_at: i64,
    pub openai_api_key: Option<String>,
}

/// What is answered when a user has no key.
pub open spec fn missing_key_text() -> Seq<char> {
    "400, key wrong or not exist"@
}

/// What is answered when there is no user.
pub open spec fn missing_user_text() -> Seq<char> {
    "400, user wrong or not exist"@
}

/// The key of a user as a mathematical value: the key, or why there is none.
pub open spec fn key_of(user: Option<UserDTO>) -> Result<Seq<char>, Seq<char>> {
    match user {
        Some(user) => match user.openai_api_key {
            Some(key) => Ok(key@),
            None => Err(missing_key_text()),
        },
        None => Err(missing_user_text()),
    }
}

/// What a `Result` of two texts holds, as sequences of characters.
pub open spec fn texts_of(result: Result<String, String>) -> Result<Seq<char>, Seq<char>> {
    match result {
        Ok(text) => Ok(text@),
        Err(text) => Err(text@),
    }
}

impl UserDTO {
    /// The provider key of this user, or a message that there is none.
    pub fn get_open_ai_api_key(&self) -> (key: Result<String, String>)
        ensures
            texts_of(key) == key_of(Some(*self)),
    {
        match &self.openai_api_key {
            Some(key) => Ok(key.clone()),
            None => Err(String::from_str("400, key wrong or not exist")),
        }
    }

    /// The provider key of a user that may be missing, or a message that
    /// says which of the two is missing.
    pub fn get_open_ai_api_key_fm_option(opt: Option<&UserDTO>) -> (key: Result<String, String>)
        ensures
            texts_of(key) == key_of(
                match opt {
                    Some(user) => Some(*user),
                    None => None,
                },
            ),
    {
        match opt {
            Some(user) => user.get_open_ai_api_key(),
            None => Err(String::from_str("400, user wrong or not exist")),
        }
    }
}

} // verus!
