use chat_relay::model::model::ChatMessagePair;
use chat_relay::model::project_error::ErrorMessage;
use chat_relay::model::user_dto::UserDTO;
use chat_relay::project_middleware::{
    auth, classify_session, error_response, extract_user, handle_error, probe_key,
    resolve_lookup, valid_openai_api_key, Extraction, SessionUser, UserLookup,
};
use chat_relay::router::app::auth::{
    form_signup, login_form, LogInDTO, LogInError, SignUp, SignUpError,
};
use chat_relay::router::app::chat::{
    credential, default_model, find_model, generate_chat, model_at, new_chat, parse_pair,
    ChatAddMessage, ChatError, GenerationPlan, ModelInfo, NewChat, MODEL_COUNT,
};
use chat_relay::router::app::settings::OpenAiAPIKey;

fn user(id: i64, password: &str, key: Option<&str>) -> UserDTO {
    UserDTO {
        id,
        email: "a@b.example".to_string(),
        password: password.to_string(),
        created_at: 0,
        openai_api_key: key.map(|k| k.to_string()),
    }
}

fn turn(id: i64, model: &str, human: &str, ai: Option<&str>) -> ChatMessagePair {
    ChatMessagePair {
        id,
        model: model.to_string(),
        message_block_id: id,
        chat_id: 1,
        human_message: human.to_string(),
        ai_message: ai.map(|t| t.to_string()),
        block_rank: 0,
        block_size: 1,
    }
}

fn login_needed() -> ErrorMessage {
    ErrorMessage { code: 401, message: "You need to log in to view this page".to_string() }
}

#[test]
fn session_cookie_names_the_user() {
    assert_eq!(extract_user(None), SessionUser::Anonymous);
    assert_eq!(extract_user(Some("0")), SessionUser::Anonymous);
    assert_eq!(extract_user(Some("42")), SessionUser::Known(42));
    assert_eq!(extract_user(Some("-5")), SessionUser::Known(-5));
    assert_eq!(extract_user(Some("+7")), SessionUser::Known(7));
    assert_eq!(extract_user(Some("abc")), SessionUser::Malformed);
    assert_eq!(extract_user(Some("")), SessionUser::Malformed);
    assert_eq!(extract_user(Some(" 42")), SessionUser::Malformed);
    assert_eq!(extract_user(Some("9223372036854775808")), SessionUser::Malformed);
}

#[test]
fn parsed_session_is_classified() {
    assert_eq!(classify_session(None), SessionUser::Anonymous);
    assert_eq!(classify_session(Some(None)), SessionUser::Malformed);
    assert_eq!(classify_session(Some(Some(0))), SessionUser::Anonymous);
    assert_eq!(classify_session(Some(Some(1))), SessionUser::Known(1));
}

#[test]
fn lookup_decides_how_the_request_goes_on() {
    let found = user(3, "pw", None);
    assert_eq!(
        resolve_lookup(UserLookup::Found(found.clone())),
        Extraction::Proceed(Some(found))
    );
    assert_eq!(resolve_lookup(UserLookup::Missing), Extraction::Proceed(None));
    assert_eq!(resolve_lookup(UserLookup::Failed), Extraction::Refuse(500));
}

#[test]
fn only_a_logged_in_caller_passes() {
    let someone = user(3, "pw", None);
    assert_eq!(auth(Some(&someone)), None);
    assert_eq!(auth(None), Some(login_needed()));
}

#[test]
fn key_gate() {
    let with_key = user(3, "pw", Some("sk-3"));
    let without = user(4, "pw", None);
    assert_eq!(probe_key(Some(&with_key)), Some("sk-3".to_string()));
    assert_eq!(probe_key(Some(&without)), Some("400: key unexist".to_string()));
    assert_eq!(probe_key(None), None);
    assert_eq!(valid_openai_api_key(true, true), None);
    assert_eq!(valid_openai_api_key(true, false), Some(login_needed()));
    assert_eq!(valid_openai_api_key(false, true), Some(login_needed()));
    assert_eq!(valid_openai_api_key(false, false), Some(login_needed()));
}

#[test]
fn error_page_from_status_400_up() {
    assert!(!handle_error(200));
    assert!(!handle_error(399));
    assert!(handle_error(400));
    assert!(handle_error(500));
    assert!(handle_error(u16::MAX));
}

#[test]
fn error_response_location() {
    assert_eq!(
        error_response(401, "You need to log in to view this page"),
        "/error?code=401&message=You need to log in to view this page"
    );
    assert_eq!(error_response(500, "Internal Server Error"), "/error?code=500&message=Internal Server Error");
}

#[test]
fn login_errors() {
    assert_eq!(LogInError::InvalidCredentials.status_code(), 400);
    assert_eq!(LogInError::InvalidCredentials.message(), "Invalid Username or Password");
    let database = LogInError::DatabaseError("down".to_string());
    assert_eq!(database.status_code(), 500);
    assert_eq!(database.message(), "down");
}

#[test]
fn login_checks_the_password() {
    let form = LogInDTO { email: "a@b.example".to_string(), password: "pw".to_string() };
    let stored = user(15, "pw", None);
    assert_eq!(login_form(&form, Some(&stored)), Ok("15".to_string()));
    let other = user(15, "PW", None);
    assert_eq!(login_form(&form, Some(&other)), Err(LogInError::InvalidCredentials));
    assert_eq!(login_form(&form, None), Err(LogInError::InvalidCredentials));
    let negative = user(-3, "pw", None);
    assert_eq!(login_form(&form, Some(&negative)), Ok("-3".to_string()));
}

#[test]
fn signup_checks_the_confirmation() {
    let mut form = SignUp {
        email: "a@b.example".to_string(),
        password: "pw".to_string(),
        password_confirmation: "pw".to_string(),
    };
    assert_eq!(form_signup(&form), Ok(()));
    form.password_confirmation = "pw ".to_string();
    assert_eq!(form_signup(&form), Err(SignUpError::PasswordMismatch));
}

#[test]
fn signup_errors() {
    assert_eq!(SignUpError::PasswordMismatch.status_code(), 400);
    assert_eq!(SignUpError::PasswordMismatch.message(), "Passwords do not match.");
    let database = SignUpError::database("UNIQUE constraint failed");
    assert_eq!(
        database,
        SignUpError::DatabaseError(
            "An error occurred while trying to sign up: UNIQUE constraint failed".to_string()
        )
    );
    assert_eq!(database.status_code(), 500);
    assert_eq!(
        database.message(),
        "An error occurred while trying to sign up: UNIQUE constraint failed"
    );
}

#[test]
fn chat_errors() {
    assert_eq!(ChatError::Other.status_code(), 400);
    assert_eq!(ChatError::InvalidAPIKey.status_code(), 401);
    assert_eq!(ChatError::EmptyKey.status_code(), 401);
    assert_eq!(ChatError::NoneObject.status_code(), 401);
    assert_eq!(ChatError::Other.message(), "Chat Error");
    assert_eq!(ChatError::InvalidAPIKey.message(), "Chat Error");
    assert_eq!(ChatError::EmptyKey.message(), "None Key Chat Error");
    assert_eq!(ChatError::NoneObject.message(), "None Object Chat Error");
}

#[test]
fn models_on_offer() {
    assert_eq!(MODEL_COUNT, 5);
    let ids: Vec<&str> = (0..MODEL_COUNT).filter_map(model_at).map(|model| model.id).collect();
    assert_eq!(
        ids,
        vec!["gpt-4-1106-preview", "gpt-4", "gpt-3.5-turbo-16k", "gpt-3.5-turbo", "qwen2.5-coder"]
    );
    assert_eq!(
        model_at(0),
        Some(ModelInfo {
            name: "GPT-4-Preview",
            id: "gpt-4-1106-preview",
            description: "This is the preview version of the GPT-4 model.",
        })
    );
    assert_eq!(
        model_at(3),
        Some(ModelInfo {
            name: "GPT-3.5",
            id: "gpt-3.5-turbo",
            description: "Standard GPT-3.5 model with turbo features.",
        })
    );
    assert_eq!(model_at(5), None);
    assert_eq!(model_at(usize::MAX), None);
    assert_eq!(Some(default_model()), model_at(4));
    assert_eq!(default_model().description, "Qwen coder were to define tokens?");
    assert_eq!(find_model("gpt-4"), model_at(1));
    assert_eq!(find_model("gpt-3.5-turbo"), model_at(3));
    assert_eq!(find_model("qwen2.5-coder"), Some(default_model()));
    assert_eq!(find_model("gpt-5"), None);
    assert_eq!(find_model(""), None);
}

#[test]
fn new_chat_location() {
    assert_eq!(new_chat(12), "/chat/12");
    assert_eq!(new_chat(0), "/chat/0");
    assert_eq!(new_chat(-4), "/chat/-4");
}

#[test]
fn turn_is_rendered_for_display() {
    let answered = turn(1, "gpt-4", "say *hi*", Some("**hi**"));
    let parsed = parse_pair(answered.clone());
    assert_eq!(parsed.pair, answered);
    assert_eq!(parsed.human_message_html, "<p>say <em>hi</em></p>\n");
    assert_eq!(parsed.ai_message_html, "<p><strong>hi</strong></p>\n");
    let open = parse_pair(turn(2, "gpt-4", "more", None));
    assert_eq!(open.human_message_html, "<p>more</p>\n");
    assert_eq!(open.ai_message_html, "");
}

#[test]
fn credential_is_needed_before_the_provider_is_called() {
    let with_key = user(3, "pw", Some("sk-3"));
    let without = user(4, "pw", None);
    assert_eq!(credential(Some(&with_key)), Ok("sk-3".to_string()));
    assert_eq!(credential(Some(&without)), Err(ChatError::EmptyKey));
    assert_eq!(credential(None), Err(ChatError::NoneObject));
}

#[test]
fn refused_probe_rejects_the_generation() {
    let turns = vec![turn(1, "gpt-4", "hi", None)];
    assert_eq!(generate_chat(false, &turns), Err(ChatError::InvalidAPIKey));
    assert_eq!(generate_chat(false, &Vec::new()), Err(ChatError::InvalidAPIKey));
}

#[test]
fn generation_is_planned_for_the_last_turn_with_the_first_model() {
    let turns = vec![
        turn(10, "gpt-4", "one", Some("1")),
        turn(11, "gpt-3.5-turbo", "two", Some("2")),
        turn(12, "qwen2.5-coder", "three", None),
    ];
    assert_eq!(
        generate_chat(true, &turns),
        Ok(GenerationPlan { turn_id: 12, model: "gpt-4".to_string(), capacity: 10 })
    );
    assert_eq!(generate_chat(true, &Vec::new()), Err(ChatError::Other));
}

#[test]
fn forms() {
    let new = NewChat { message: "hi".to_string(), model: "gpt-4".to_string() };
    assert_eq!(new.clone(), new);
    let add = ChatAddMessage { message: "more".to_string() };
    assert_eq!(add.message, "more");
    let key = OpenAiAPIKey { api_key: "sk".to_string() };
    assert_eq!(key.api_key, "sk");
}
