//! Logging in and signing up.

use vstd::prelude::*;
use vstd::string::StringExecFns;
use crate::model::text::{signed_decimal, signed_decimal_text};
use crate::model::user_dto::UserDTO;

verus! {

#[derive(Debug, Clone, PartialEq, Eq)]
pub enum LogInError {
    InvalidCredentials,
    DatabaseError(String),
}

impl LogInError {
    /// The status code of each error.
    pub open spec fn status(self) -> u16 {
        match self {
            LogInError::InvalidCredentials => 400,
            LogInError::DatabaseError(_) => 500,
        }
    }

    /// What each error tells the caller.
    pub open spec fn text(self) -> Seq<char> {
        match self {
            LogInError::InvalidCredentials => "Invalid Username or Password"@,
            LogInError::DatabaseError(message) => message@,
        }
    }

    /// The status code that this error answers with.
    pub fn status_code(&self) -> (code: u16)
        ensures
            code == self.status(),
    {
        match self {
            LogInError::InvalidCredentials => 400,
            LogInError::DatabaseError(_) => 500,
        }
    }

    /// What this error tells the caller.
    pub fn message(&self) -> (message: String)
        ensures
            message@ == self.text(),
    {
        match self {
            LogInError::InvalidCredentials => String::from_str("Invalid Username or Password"),
            LogInError::DatabaseError(message) => message.clone(),
        }
    }
}

/// The login form.
#[derive(Debug, Clone, PartialEq, Eq)]
pub struct LogInDTO {
    pub email: String,
    pub password: String,
}

/// Checks a login against the user stored under its address, if any, and
/// gives the value of the session cookie: the user's identifier in decimal.
/// An unknown address and a wrong password are refused alike.
pub fn login_form(log_in: &LogInDTO, stored: Option<&UserDTO>) -> (session: Result<
    String,
    LogInError,
>)
    ensures
        match stored {
            Some(user) if user.password@ == log_in.password@ => session matches Ok(value)
                && value@ == signed_decimal(user.id as int),
            _ => session == Err::<String, LogInError>(LogInError::InvalidCredentials),
        },
{
    match stored {
        Some(user) => {
            if user.password == log_in.password {
                Ok(signed_decimal_text(user.id))
            } else {
                Err(LogInError::InvalidCredentials)
            }
        },
        None => Err(LogInError::InvalidCredentials),
    }
}

#[derive(Debug, Clone, PartialEq, Eq)]
pub enum SignUpError {
    PasswordMismatch,
    DatabaseError(String),
}

impl SignUpError {
    /// The status code of each error.
    pub open spec fn status(self) -> u16 {
        match self {
            SignUpError::PasswordMismatch => 400,
            SignUpError::DatabaseError(_) => 500,
        }
    }

    /// What each error tells the caller.
    pub open spec fn text(self) -> Seq<char> {
        match self {
            SignUpError::PasswordMismatch => "Passwords do not match."@,
            SignUpError::DatabaseError(message) => message@,
        }
    }

    /// The status code that this error answers with.
    pub fn status_code(&self) -> (code: u16)
        ensures
            code == self.status(),
    {
        match self {
            SignUpError::PasswordMismatch => 400,
            SignUpError::DatabaseError(_) => 500,
        }
    }

    /// What this error tells the caller.
    pub fn message(&self) -> (message: String)
        ensures
            message@ == self.text(),
    {
        match self {
            SignUpError::PasswordMismatch => String::from_str("Passwords do not match."),
            SignUpError::DatabaseError(message) => message.clone(),
        }
    }

    /// The error for a sign-up that the database refused, with its cause.
    pub fn database(cause: &str) -> (error: SignUpError)
        ensures
            error matches SignUpError::DatabaseError(message) && message@
                == "An error occurred while trying to sign up: "@ + cause@,
    {
        let mut message = String::from_str("An error occurred while trying to sign up: ");
        message.append(cause);
        SignUpError::DatabaseError(message)
    }
}

/// The sign-up form.
#[derive(Debug, Clone, PartialEq, Eq)]
pub struct SignUp {
    pub email: String,
    pub password: String,
    pub password_confirmation: String,
}

/// Checks a sign-up before anything is written: the password and its
/// confirmation must be the same.
pub fn form_signup(sign_up: &SignUp) -> (checked: Result<(), SignUpError>)
    ensures
        checked == (if sign_up.password@ == sign_up.password_confirmation@ {
            Ok::<(), SignUpError>(())
        } else {
            Err::<(), SignUpError>(SignUpError::PasswordMismatch)
        }),
{
    if sign_up.password == sign_up.password_confirmation {
        Ok(())
    } else {
        Err(SignUpError::PasswordMismatch)
    }
}

} // verus!
