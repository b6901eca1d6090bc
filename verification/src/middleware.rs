//! The lenient middleware: a session that names no user is no error, and a
//! key that the provider does not accept is answered with 403.

use vstd::prelude::*;
use crate::model::project_error::{error_location, ErrorMessage};
use crate::model::user::User;
use crate::model::user_dto::UserDTO;
use crate::project_middleware::{parse_i64, parsed_i64, UserLookup};

verus! {

/// The identifier that stands for a session without a usable number.
pub const NO_SESSION: i64 = -1;

/// The user identifier of a session, given what the cookie's value parsed
/// to: `None` where there is no cookie.
pub open spec fn session_id_of(parsed: Option<Option<i64>>) -> i64 {
    match parsed {
        Some(Some(id)) => id,
        _ => NO_SESSION,
    }
}

/// Says which user a session names, from what its cookie parsed to.
pub fn session_id(parsed: Option<Option<i64>>) -> (id: i64)
    ensures
        id == session_id_of(parsed),
{
    match parsed {
        Some(Some(id)) => id,
        _ => NO_SESSION,
    }
}

/// Says which user the value of the session cookie names; -1 where there is
/// no cookie or its value is no number.
pub fn extract_user(session: Option<&str>) -> (id: i64)
    ensures
        id == session_id_of(
            match session {
                Some(value) => Some(parsed_i64(value@)),
                None => None,
            },
        ),
{
    match session {
        Some(value) => session_id(Some(parse_i64(value))),
        None => session_id(None),
    }
}

/// A user found is passed on, a user missing is passed on as none, and a
/// failed lookup is answered with the error page for 500.
pub fn resolve_lookup(lookup: UserLookup) -> (user: Result<Option<UserDTO>, ErrorMessage>)
    ensures
        match lookup {
            UserLookup::Found(found) => user == Ok::<Option<UserDTO>, ErrorMessage>(Some(found)),
            UserLookup::Missing => user == Ok::<Option<UserDTO>, ErrorMessage>(None),
            UserLookup::Failed => user matches Err(error) && error.code == 500 && error.message@
                == "Internal Server Error"@,
        },
{
    match lookup {
        UserLookup::Found(found) => Ok(Some(found)),
        UserLookup::Missing => Ok(None),
        UserLookup::Failed => Err(ErrorMessage::new(500, "Internal Server Error")),
    }
}

/// Lets a logged-in caller pass and answers anyone else with 401.
pub fn auth(current_user: Option<&User>) -> (refusal: Option<ErrorMessage>)
    ensures
        current_user is Some <==> refusal is None,
        refusal matches Some(error) ==> error.code == 401 && error.message@
            == "You need to log in to view this page"@,
{
    match current_user {
        Some(_) => None,
        None => Some(ErrorMessage::new(401, "You need to log in to view this page")),
    }
}

/// The key to probe the provider with: the user's own, or the empty text.
pub fn probe_key(current_user: &User) -> (key: String)
    ensures
        key@ == (match current_user.openai_api_key {
            Some(stored) => stored@,
            None => Seq::<char>::empty(),
        }),
{
    match &current_user.openai_api_key {
        Some(stored) => stored.clone(),
        None => String::new(),
    }
}

/// How the probe of a key ended.
#[derive(Debug, Clone, Copy, PartialEq, Eq, Structural)]
pub enum ProbeOutcome {
    /// The provider answered with success.
    Accepted,
    /// The provider answered, and not with success.
    Refused,
    /// The provider could not be asked.
    Unreachable,
}

/// Lets a caller pass whose key the provider accepted, and answers the
/// others with 403.
pub fn valid_openai_api_key(probe: ProbeOutcome) -> (refusal: Option<ErrorMessage>)
    ensures
        match probe {
            ProbeOutcome::Accepted => refusal is None,
            ProbeOutcome::Refused => refusal matches Some(error) && error.code == 403
                && error.message@ == "You API key is not set or invalid. Go to Settings."@,
            ProbeOutcome::Unreachable => refusal matches Some(error) && error.code == 403
                && error.message@ == "You API key is not set or invalid. Go to Settings"@,
        },
{
    match probe {
        ProbeOutcome::Accepted => None,
        ProbeOutcome::Refused => Some(
            ErrorMessage::new(403, "You API key is not set or invalid. Go to Settings."),
        ),
        ProbeOutcome::Unreachable => Some(
            ErrorMessage::new(403, "You API key is not set or invalid. Go to Settings"),
        ),
    }
}

/// Whether an answer with this status code is replaced by the error page.
pub fn handle_error(status_code: u16) -> (is_error: bool)
    ensures
        is_error == (status_code >= 400),
{
    status_code >= 400
}

/// The location of the error page for a code and a message.
pub fn error_response(code: u16, message: &str) -> (to: String)
    ensures
        to@ == error_location(code, message@),
{
    ErrorMessage::new(code, message).location()
}

} // verus!
