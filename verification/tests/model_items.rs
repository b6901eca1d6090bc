use chat_relay::model::constant::{ID_USER_NONE, SESSION_NAME};
use chat_relay::model::db_type::Database;
use chat_relay::model::model::{Chat, ChatMessagePair};
use chat_relay::model::project_error::{ApiError, ErrorMessage, UserValidationError};
use chat_relay::model::text::{contains_char, decimal_text, same_text, signed_decimal_text};
use chat_relay::model::user::{get_created_at, verify_email, User, UNKNOWN_CREATED_AT};
use chat_relay::model::user_dto::UserDTO;

fn user_with_key(key: Option<&str>) -> UserDTO {
    UserDTO {
        id: 17,
        email: "a@b.example".to_string(),
        password: "secret".to_string(),
        created_at: 1_700_000_000,
        openai_api_key: key.map(|k| k.to_string()),
    }
}

#[test]
fn connection_strings() {
    assert_eq!(Database::Postgres.get_connection_string(), "postgres://...");
    assert_eq!(Database::MySql.get_connection_string(), "mysql://...");
    assert_eq!(Database::Sqlite.get_connection_string(), "sqlite://...");
}

#[test]
fn constants() {
    assert_eq!(ID_USER_NONE, 0);
    assert_eq!(SESSION_NAME, "rust-ai-session");
}

#[test]
fn error_message_keeps_code_and_text() {
    let error = ErrorMessage::new(404, "Not Found");
    assert_eq!(error.code, 404);
    assert_eq!(error.message, "Not Found");
    let internal = ErrorMessage::internal("broken");
    assert_eq!(internal, ErrorMessage { code: 500, message: "broken".to_string() });
}

#[test]
fn error_location_names_code_and_message() {
    assert_eq!(ErrorMessage::new(404, "Not Found").location(), "/error?code=404&message=Not Found");
    assert_eq!(ErrorMessage::new(0, "").location(), "/error?code=0&message=");
    assert_eq!(
        ErrorMessage::new(65535, "{1} and {2}").location(),
        "/error?code=65535&message={1} and {2}"
    );
}

#[test]
fn validation_error_messages() {
    assert_eq!(UserValidationError::MissingEmail.message(), "Email is missing");
    assert_eq!(UserValidationError::InvalidEmailFormat.message(), "Invalid email format");
}

#[test]
fn api_error_status_codes() {
    let carried = ErrorMessage::new(418, "teapot");
    assert_eq!(ApiError::BadRequest(carried.clone()).status_code(), 400);
    assert_eq!(ApiError::Forbidden(carried.clone()).status_code(), 403);
    assert_eq!(ApiError::Unauthorized(carried.clone()).status_code(), 401);
    assert_eq!(ApiError::InternalServerError(carried.clone()).status_code(), 500);
    assert_eq!(ApiError::DatabaseError(carried).status_code(), 500);
}

#[test]
fn email_needs_an_at_and_a_dot() {
    assert_eq!(verify_email(None), Err(UserValidationError::MissingEmail));
    assert_eq!(verify_email(Some("a@b.c".to_string())), Ok("a@b.c".to_string()));
    assert_eq!(verify_email(Some(".@".to_string())), Ok(".@".to_string()));
    assert_eq!(
        verify_email(Some("ab.c".to_string())),
        Err(UserValidationError::InvalidEmailFormat)
    );
    assert_eq!(verify_email(Some("a@b".to_string())), Err(UserValidationError::InvalidEmailFormat));
    assert_eq!(verify_email(Some(String::new())), Err(UserValidationError::InvalidEmailFormat));
    assert_eq!(verify_email(Some("ü@é.ö".to_string())), Ok("ü@é.ö".to_string()));
}

#[test]
fn created_at_defaults_to_1900() {
    let mut user = User {
        id: Some(1),
        email: None,
        password: None,
        created_at: Some(1_700_000_000),
        openai_api_key: None,
    };
    assert_eq!(get_created_at(&user), 1_700_000_000);
    user.created_at = None;
    assert_eq!(get_created_at(&user), -2_208_988_800);
    assert_eq!(UNKNOWN_CREATED_AT, -2_208_988_800);
}

#[test]
fn provider_key_of_a_user() {
    assert_eq!(user_with_key(Some("sk-1")).get_open_ai_api_key(), Ok("sk-1".to_string()));
    assert_eq!(
        user_with_key(None).get_open_ai_api_key(),
        Err("400, key wrong or not exist".to_string())
    );
    let user = user_with_key(Some("sk-2"));
    assert_eq!(UserDTO::get_open_ai_api_key_fm_option(Some(&user)), Ok("sk-2".to_string()));
    let keyless = user_with_key(None);
    assert_eq!(
        UserDTO::get_open_ai_api_key_fm_option(Some(&keyless)),
        Err("400, key wrong or not exist".to_string())
    );
    assert_eq!(
        UserDTO::get_open_ai_api_key_fm_option(None),
        Err("400, user wrong or not exist".to_string())
    );
}

#[test]
fn decimal_texts() {
    assert_eq!(decimal_text(0), "0");
    assert_eq!(decimal_text(7), "7");
    assert_eq!(decimal_text(10), "10");
    assert_eq!(decimal_text(1234567890), "1234567890");
    assert_eq!(decimal_text(u64::MAX), "18446744073709551615");
    assert_eq!(signed_decimal_text(0), "0");
    assert_eq!(signed_decimal_text(-1), "-1");
    assert_eq!(signed_decimal_text(42), "42");
    assert_eq!(signed_decimal_text(i64::MAX), "9223372036854775807");
    assert_eq!(signed_decimal_text(i64::MIN), "-9223372036854775808");
}

#[test]
fn text_helpers() {
    assert!(contains_char("a@b", '@'));
    assert!(!contains_char("ab", '@'));
    assert!(!contains_char("", '.'));
    assert!(contains_char("héllo.", '.'));
    assert!(same_text("gpt-4", "gpt-4"));
    assert!(!same_text("gpt-4", "gpt-4 "));
    assert!(same_text("", ""));
}

#[test]
fn plain_records() {
    let chat = Chat { id: 1, name: "first".to_string(), user_id: 2 };
    assert_eq!(chat.clone(), chat);
    let pair = ChatMessagePair {
        id: 3,
        model: "gpt-4".to_string(),
        message_block_id: 4,
        chat_id: 1,
        human_message: "hi".to_string(),
        ai_message: None,
        block_rank: 0,
        block_size: 1,
    };
    assert_eq!(pair.clone(), pair);
    assert!(pair.ai_message.is_none());
}
