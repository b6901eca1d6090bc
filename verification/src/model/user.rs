//! Users as they are edited: every field may be missing.

use vstd::prelude::*;
use crate::model::project_error::UserValidationError;
use crate::model::text::contains_char;

verus! {

/// A user whose fields are all optional. `created_at` is in seconds since
/// 1970-01-01T00:00:00.
#[derive(Debug, Clone, PartialEq, Eq)]
pub struct User {
    pub id: Option<i64>,
    pub email: Option<String>,
    pub password: Option<String>,
    pub created_at: Option<i64>,
    pub openai_api_key: Option<String>,
}

/// 1900-01-01T00:00:00 in seconds since 1970-01-01T00:00:00: the creation
/// time of a user that has none.
pub const UNKNOWN_CREATED_AT: i64 = -2208988800;

/// An address passes when it holds an `@` and a dot.
pub open spec fn email_is_plausible(email: Seq<char>) -> bool {
    email.contains('@') && email.contains('.')
}

/// Checks that an address is there and looks like one, and hands it back.
pub fn verify_email(user_email: Option<String>) -> (checked: Result<String, UserValidationError>)
    ensures
        match user_email {
            None => checked == Err::<String, UserValidationError>(
                UserValidationError::MissingEmail,
            ),
            Some(email) => if email_is_plausible(email@) {
                checked == Ok::<String, UserValidationError>(email)
            } else {
                checked == Err::<String, UserValidationError>(
                    UserValidationError::InvalidEmailFormat,
                )
            },
        },
{
    match user_email {
        Some(email) => {
            if contains_char(email.as_str(), '@') && contains_char(email.as_str(), '.') {
                Ok(email)
            } else {
                Err(UserValidationError::InvalidEmailFormat)
            }
        },
        None => Err(UserValidationError::MissingEmail),
    }
}

/// When the user was created; 1900-01-01 where that is not known.
pub fn get_created_at(user: &User) -> (seconds: i64)
    ensures
        seconds == (match user.created_at {
            Some(at) => at,
            None => UNKNOWN_CREATED_AT,
        }),
{
    match user.created_at {
        Some(at) => at,
        None => UNKNOWN_CREATED_AT,
    }
}

} // verus!
