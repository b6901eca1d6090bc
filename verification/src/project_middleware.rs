//! What the middleware decides: who the caller is, whether the request may
//! pass, and when an answer becomes an error page.

use vstd::prelude::*;
use vstd::string::StringExecFns;
use crate::model::constant::ID_USER_NONE;
use crate::model::project_error::{error_location, ErrorMessage};
use crate::model::user_dto::UserDTO;

verus! {

/// What `str::parse::<i64>` makes of a text: the number, or nothing where
/// the text is not one.
pub uninterp spec fn parsed_i64(text: Seq<char>) -> Option<i64>;

/// Parses a number with `str::parse::<i64>`.
///
/// Trusted: the parse reads its text alone, so the contract gives the
/// outcome its name; the error, which says no more than that the text is no
/// `i64`, becomes `None`.
#[verifier::external_body]
pub(crate) fn parse_i64(text: &str) -> (number: Option<i64>)
    ensures
        number == parsed_i64(text@),
{
    match text.parse::<i64>() {
        Ok(number) => Some(number),
        Err(_) => None,
    }
}

/// Who a session cookie stands for.
#[derive(Debug, Clone, Copy, PartialEq, Eq, Structural)]
pub enum SessionUser {
    /// No cookie, or the identifier that stands for no user.
    Anonymous,
    /// The user with this identifier, to be looked up.
    Known(i64),
    /// The cookie holds no number: the request is a bad request.
    Malformed,
}

/// Who a session stands for, given what the cookie's value parsed to:
/// `None` where there is no cookie.
pub open spec fn session_user_of(parsed: Option<Option<i64>>) -> SessionUser {
    match parsed {
        None => SessionUser::Anonymous,
        Some(None) => SessionUser::Malformed,
        Some(Some(id)) => if id == ID_USER_NONE {
            SessionUser::Anonymous
        } else {
            SessionUser::Known(id)
        },
    }
}

/// Says who a session stands for, from what its cookie parsed to.
pub fn classify_session(parsed: Option<Option<i64>>) -> (user: SessionUser)
    ensures
        user == session_user_of(parsed),
{
    match parsed {
        None => SessionUser::Anonymous,
        Some(None) => SessionUser::Malformed,
        Some(Some(id)) => if id == ID_USER_NONE {
            SessionUser::Anonymous
        } else {
            SessionUser::Known(id)
        },
    }
}

/// Says who the value of the session cookie stands for.
pub fn extract_user(session: Option<&str>) -> (user: SessionUser)
    ensures
        user == session_user_of(
            match session {
                Some(value) => Some(parsed_i64(value@)),
                None => None,
            },
        ),
{
    match session {
        Some(value) => classify_session(Some(parse_i64(value))),
        None => classify_session(None),
    }
}

/// What the lookup of a known user came to.
#[derive(Debug, Clone, PartialEq, Eq)]
pub enum UserLookup {
    Found(UserDTO),
    Missing,
    Failed,
}

/// How the request goes on after the user was looked up.
#[derive(Debug, Clone, PartialEq, Eq)]
pub enum Extraction {
    /// Run the handler with this user, or with none.
    Proceed(Option<UserDTO>),
    /// Answer with this status code.
    Refuse(u16),
}

/// A user found is passed on, a user missing is passed on as none, and a
/// failed lookup is an internal server error.
pub fn resolve_lookup(lookup: UserLookup) -> (extraction: Extraction)
    ensures
        extraction == (match lookup {
            UserLookup::Found(user) => Extraction::Proceed(Some(user)),
            UserLookup::Missing => Extraction::Proceed(None),
            UserLookup::Failed => Extraction::Refuse(500),
        }),
{
    match lookup {
        UserLookup::Found(user) => Extraction::Proceed(Some(user)),
        UserLookup::Missing => Extraction::Proceed(None),
        UserLookup::Failed => Extraction::Refuse(500),
    }
}

/// What a caller who is not logged in is told.
pub open spec fn login_needed_text() -> Seq<char> {
    "You need to log in to view this page"@
}

fn login_needed() -> (error: ErrorMessage)
    ensures
        error.code == 401,
        error.message@ == login_needed_text(),
{
    ErrorMessage::new(401, "You need to log in to view this page")
}

/// Lets a logged-in caller pass and answers anyone else with 401.
pub fn auth(current_user: Option<&UserDTO>) -> (refusal: Option<ErrorMessage>)
    ensures
        current_user is Some <==> refusal is None,
        refusal matches Some(error) ==> error.code == 401 && error.message@
            == login_needed_text(),
{
    match current_user {
        Some(_) => None,
        None => Some(login_needed()),
    }
}

/// The key to probe the provider with: the user's own, or a text that no
/// provider accepts where the user has none.
pub open spec fn probe_key_of(user: UserDTO) -> Seq<char> {
    match user.openai_api_key {
        Some(key) => key@,
        None => "400: key unexist"@,
    }
}

/// The key to probe the provider with, if there is a user to probe for.
pub fn probe_key(current_user: Option<&UserDTO>) -> (key: Option<String>)
    ensures
        current_user is Some <==> key is Some,
        key matches Some(k) ==> k@ == probe_key_of(*current_user->Some_0),
{
    match current_user {
        Some(user) => match user.get_open_ai_api_key() {
            Ok(key) => Some(key),
            Err(_) => Some(String::from_str("400: key unexist")),
        },
        None => None,
    }
}

/// Lets a caller pass whose key the provider accepted. Without a user, or
/// when the probe failed or was refused, the answer is 401.
pub fn valid_openai_api_key(user_present: bool, probe_succeeded: bool) -> (refusal: Option<
    ErrorMessage,
>)
    ensures
        (user_present && probe_succeeded) <==> refusal is None,
        refusal matches Some(error) ==> error.code == 401 && error.message@
            == login_needed_text(),
{
    if user_present && probe_succeeded {
        None
    } else {
        Some(login_needed())
    }
}

/// Whether an answer with this status code is replaced by the error page.
pub fn handle_error(status_code: u16) -> (is_error: bool)
    ensures
        is_error == (status_code >= 400),
{
    status_code >= 400
}

/// The location of the error page for a code and a message, which the
/// redirect and its `HX-Redirect` header both name.
pub fn error_response(code: u16, message: &str) -> (to: String)
    ensures
        to@ == error_location(code, message@),
{
    ErrorMessage::new(code, message).location()
}

} // verus!
