use charades::errors::ApiError;
use charades::errors::ServerError;
use charades::errors::StoreErrorKind;
use charades::messages::ServerMessage;
use charades::models::cookie_secret;
use charades::models::database_url;
use charades::models::redis_url;
use charades::models::Environment;
use charades::models::UserId;
use charades::validators::trim_name;
use charades::validators::valid_alphanumeric_name;
use charades::validators::validate_session_id;
use charades::validators::validate_username;

#[test]
fn acceptable_names_pass() {
    assert_eq!(valid_alphanumeric_name("abc-d_1", "Session id"), None);
    assert_eq!(valid_alphanumeric_name("", "Session id"), None);
    assert_eq!(valid_alphanumeric_name("x9-_", "Username"), None);
}

#[test]
fn whitespace_is_reported_first() {
    assert_eq!(
        valid_alphanumeric_name("a b", "Session id"),
        Some((
            "Session id must not contain any whitespace".to_string(),
            "wrong_format".to_string(),
        ))
    );
    // a non-breaking space counts as whitespace, not as a malformed character
    assert_eq!(
        valid_alphanumeric_name("a\u{00A0}b", "Session id"),
        Some((
            "Session id must not contain any whitespace".to_string(),
            "wrong_format".to_string(),
        ))
    );
}

#[test]
fn malformed_characters_are_reported() {
    assert_eq!(
        valid_alphanumeric_name("a!b", "Username"),
        Some((
            "Username must only contain alphanumeric characters or -/_".to_string(),
            "wrong_format".to_string(),
        ))
    );
}

#[test]
fn uppercase_is_reported() {
    assert_eq!(
        valid_alphanumeric_name("aBc", "Username"),
        Some((
            "Username must only contain lowercase characters".to_string(),
            "wrong_format".to_string(),
        ))
    );
}

#[test]
fn first_offending_character_decides() {
    // the '!' comes before the uppercase letter
    assert_eq!(
        valid_alphanumeric_name("a!B", "Username"),
        Some((
            "Username must only contain alphanumeric characters or -/_".to_string(),
            "wrong_format".to_string(),
        ))
    );
}

#[test]
fn trimming_removes_only_surrounding_whitespace() {
    assert_eq!(trim_name("  a b  "), "a b");
    assert_eq!(trim_name("\t\nroom-1\u{00A0}"), "room-1");
    assert_eq!(trim_name("plain"), "plain");
    assert_eq!(trim_name("   "), "");
    assert_eq!(trim_name(""), "");
}

#[test]
fn session_ids_are_validated_after_trimming() {
    assert_eq!(validate_session_id("  room-1  "), None);
    assert_eq!(
        validate_session_id(" bad name "),
        Some((
            "Session id must not contain any whitespace".to_string(),
            "wrong_format".to_string(),
        ))
    );
}

#[test]
fn usernames_are_validated_after_trimming() {
    assert_eq!(validate_username("\tuser_9\t"), None);
    assert_eq!(
        validate_username(" User "),
        Some((
            "Username must only contain lowercase characters".to_string(),
            "wrong_format".to_string(),
        ))
    );
}

#[test]
fn status_codes_follow_the_taxonomy() {
    assert_eq!(ApiError::internal("x".to_string()).status_code(), 500);
    assert_eq!(ApiError::BadRequest { message: "x".to_string() }.status_code(), 400);
    assert_eq!(ApiError::NotFound { message: "x".to_string() }.status_code(), 404);
    assert_eq!(ApiError::Unauthorized { message: "x".to_string() }.status_code(), 401);
    assert_eq!(ApiError::UniqueViolation { message: "x".to_string() }.status_code(), 400);
    assert_eq!(ApiError::CheckViolation { message: "x".to_string() }.status_code(), 400);
    assert_eq!(ApiError::ForeignKeyViolation { message: "x".to_string() }.status_code(), 400);
    assert_eq!(ApiError::NotNullViolation { message: "x".to_string() }.status_code(), 400);
    assert_eq!(
        ApiError::Validation {
            message: "x".to_string(),
            code: "c".to_string(),
            field: None,
        }
        .status_code(),
        400
    );
}

#[test]
fn store_errors_classify() {
    assert_eq!(
        ApiError::from_store_error(StoreErrorKind::UniqueViolation),
        ApiError::UniqueViolation {
            message: "It seems like this record already exists".to_string(),
        }
    );
    assert_eq!(
        ApiError::from_store_error(StoreErrorKind::CheckViolation),
        ApiError::CheckViolation { message: "Constraint check failed".to_string() }
    );
    assert_eq!(
        ApiError::from_store_error(StoreErrorKind::ForeignKeyViolation),
        ApiError::ForeignKeyViolation {
            message: "Foreign key constraint check failed".to_string(),
        }
    );
    assert_eq!(
        ApiError::from_store_error(StoreErrorKind::NotNullViolation),
        ApiError::NotNullViolation {
            message: "Not null constraint check failed".to_string(),
        }
    );
    assert_eq!(
        ApiError::from_store_error(StoreErrorKind::NotFound),
        ApiError::NotFound { message: "Record not found".to_string() }
    );
    assert_eq!(
        ApiError::from_store_error(StoreErrorKind::Other),
        ApiError::Internal { message: "Internal server error".to_string() }
    );
}

#[test]
fn descriptions_name_kind_status_and_message() {
    assert_eq!(
        ApiError::internal("boom".to_string()).describe(),
        "Internal error: 500 Internal Server Error - boom".to_string()
    );
    assert_eq!(
        ApiError::NotFound { message: "gone".to_string() }.describe(),
        "Not found: 404 Not Found - gone".to_string()
    );
    assert_eq!(
        ApiError::Unauthorized { message: "who".to_string() }.describe(),
        "Unauthorized: 401 Unauthorized - who".to_string()
    );
    assert_eq!(
        ApiError::UniqueViolation { message: "dup".to_string() }.describe(),
        "Unique violation: 400 Bad Request - dup".to_string()
    );
}

#[test]
fn default_error_is_internal() {
    assert_eq!(
        ApiError::default(),
        ApiError::Internal { message: "Internal server error".to_string() }
    );
}

#[test]
fn api_errors_become_error_messages() {
    let msg: ServerMessage = ApiError::NotFound { message: "gone".to_string() }.into();
    assert_eq!(msg, ServerMessage::Error { error: "gone".to_string() });
    let msg: ServerMessage = ApiError::internal("boom".to_string()).into();
    assert_eq!(msg, ServerMessage::Error { error: "boom".to_string() });
}

#[test]
fn silent_server_error_compares() {
    assert_eq!(ServerError::Silent, ServerError::Silent);
    assert_ne!(
        ServerError::Silent,
        ServerError::Private { id: "a".to_string(), error: "x".to_string() }
    );
}

#[test]
fn environment_accessors_hand_out_the_configured_values() {
    let env = Environment {
        database_url: "postgres://db".to_string(),
        cookie_secret: "test-cookie-key".to_string(),
        redis_url: "redis://cache".to_string(),
    };
    assert_eq!(database_url(&env), "postgres://db".to_string());
    assert_eq!(cookie_secret(&env), "test-cookie-key".to_string());
    assert_eq!(redis_url(&env), "redis://cache".to_string());
}

#[test]
fn user_id_converts_to_and_from_strings() {
    let id: UserId = "u1".to_string().into();
    assert_eq!(id, UserId("u1".to_string()));
    let s: String = id.into();
    assert_eq!(s, "u1".to_string());
}
