use axum_todo::error::{found_or_not_found, AppError, ErrorMessage, ErrorResponse, HttpError};

#[test]
fn message_texts() {
    let cases = vec![
        (ErrorMessage::ServerError, "Server Error. Please try again later"),
        (ErrorMessage::BadRequest, "Bad request"),
        (ErrorMessage::Unauthorized, "Unauthorized"),
        (ErrorMessage::PermissionDenied, "You are not allowed to perform this action"),
        (ErrorMessage::TodoNotFound, "Todo not found"),
        (ErrorMessage::TodoValidationError, "Validation error"),
        (ErrorMessage::TodoAlreadyCompleted, "Todo is already completed"),
        (ErrorMessage::EmptyPassword, "Password cannot be empty"),
        (ErrorMessage::InvalidHashFormat, "Invalid password hash format"),
        (ErrorMessage::HashingError, "Error while hashing password"),
        (ErrorMessage::InvalidToken, "Authentication token is invalid or expired"),
        (ErrorMessage::WrongCredentials, "Email or password is wrong"),
        (ErrorMessage::EmailExist, "A user with this email already exists"),
        (ErrorMessage::UserNoLongerExist, "User belonging to this token no longer exists"),
        (ErrorMessage::TokenNotProvided, "You are not logged in, please provide a token"),
        (ErrorMessage::UserNotAuthenticated, "Authentication required. Please log in."),
    ];
    for (m, text) in cases {
        assert_eq!(m.to_str(), text);
        assert_eq!(m.to_string(), text);
    }
}

#[test]
fn password_length_message_renders_the_limit() {
    assert_eq!(
        ErrorMessage::ExceededMaxPasswordLength(64).to_str(),
        "Password must not be more than 64 characters"
    );
    assert_eq!(
        ErrorMessage::ExceededMaxPasswordLength(0).to_string(),
        "Password must not be more than 0 characters"
    );
    assert_eq!(
        ErrorMessage::ExceededMaxPasswordLength(1000).to_string(),
        format!("Password must not be more than {} characters", 1000)
    );
}

#[test]
fn message_equality_is_structural() {
    assert_eq!(ErrorMessage::ExceededMaxPasswordLength(3), ErrorMessage::ExceededMaxPasswordLength(3));
    assert_ne!(ErrorMessage::ExceededMaxPasswordLength(3), ErrorMessage::ExceededMaxPasswordLength(4));
    assert_ne!(ErrorMessage::BadRequest, ErrorMessage::Unauthorized);
}

#[test]
fn app_error_texts() {
    assert_eq!(AppError::NotFound("x".to_string()).to_string(), "Not found: x");
    assert_eq!(AppError::BadRequest("y".to_string()).to_string(), "Bad request: y");
    assert_eq!(AppError::Unauthorized("z".to_string()).to_string(), "Unauthorized: z");
    assert_eq!(AppError::DatabaseError("db".to_string()).to_string(), "Database error: db");
    assert_eq!(AppError::Internal("boom".to_string()).to_string(), "Internal error: boom");
}

#[test]
fn todo_not_found_names_the_uuid() {
    let id: u128 = 0x67e5_5044_10b1_426f_9247_bb68_0e5f_e0c8;
    match AppError::todo_not_found(id) {
        AppError::NotFound(msg) => {
            assert_eq!(msg, "Todo with id 67e55044-10b1-426f-9247-bb680e5fe0c8 not found")
        }
        other => panic!("unexpected {:?}", other),
    }
    match AppError::todo_not_found(1) {
        AppError::NotFound(msg) => {
            assert_eq!(msg, "Todo with id 00000000-0000-0000-0000-000000000001 not found")
        }
        other => panic!("unexpected {:?}", other),
    }
}

#[test]
fn found_or_not_found_passes_found_values() {
    assert!(matches!(found_or_not_found(Some(7u8), 5), Ok(7)));
    match found_or_not_found::<u8>(None, u128::MAX) {
        Err(AppError::NotFound(msg)) => {
            assert_eq!(msg, "Todo with id ffffffff-ffff-ffff-ffff-ffffffffffff not found")
        }
        other => panic!("unexpected {:?}", other),
    }
}

#[test]
fn database_errors_keep_the_driver_text() {
    let text = sqlx::Error::RowNotFound.to_string();
    match AppError::from_database_error(sqlx::Error::RowNotFound) {
        AppError::DatabaseError(msg) => assert_eq!(msg, text),
        other => panic!("unexpected {:?}", other),
    }
}

#[test]
fn constructors_set_status() {
    assert_eq!(HttpError::server_error("a".to_string()).status, 500);
    assert_eq!(HttpError::bad_request("a".to_string()).status, 400);
    assert_eq!(HttpError::not_found("a".to_string()).status, 404);
    assert_eq!(HttpError::unique_constraint_violation("a".to_string()).status, 409);
    assert_eq!(HttpError::unauthorized("a".to_string()).status, 401);
    let e = HttpError::new("m".to_string(), 418);
    assert_eq!(e.status, 418);
    assert_eq!(e.message, "m");
}

#[test]
fn app_errors_map_to_http_errors() {
    let cases = vec![
        (AppError::NotFound("n".to_string()), 404, "n"),
        (AppError::BadRequest("b".to_string()), 400, "b"),
        (AppError::Unauthorized("u".to_string()), 401, "u"),
        (AppError::DatabaseError("d".to_string()), 500, "d"),
        (AppError::Internal("i".to_string()), 500, "i"),
    ];
    for (e, status, msg) in cases {
        let h = HttpError::from(e);
        assert_eq!(h.status, status);
        assert_eq!(h.message, msg);
    }
}

#[test]
fn http_error_text_shows_code_and_reason() {
    assert_eq!(
        HttpError::not_found("gone".to_string()).to_string(),
        "HttpError: message: gone, status: 404 Not Found"
    );
    assert_eq!(
        HttpError::server_error("x".to_string()).to_string(),
        "HttpError: message: x, status: 500 Internal Server Error"
    );
    assert_eq!(
        HttpError::new("odd".to_string(), 999).to_string(),
        "HttpError: message: odd, status: 999 <unknown status code>"
    );
}

#[test]
fn error_body_is_fail_with_message() {
    let body = HttpError::bad_request("nope".to_string()).error_body();
    assert_eq!(body.status, "fail");
    assert_eq!(body.message, "nope");
}

#[test]
fn error_response_json() {
    let r = ErrorResponse { status: "fail".to_string(), message: "Todo not found".to_string() };
    assert_eq!(r.to_json().unwrap(), r#"{"status":"fail","message":"Todo not found"}"#);
    let r = ErrorResponse {
        status: "fail".to_string(),
        message: "a\"b\\c\nd\te\u{1}f\u{7f}é/".to_string(),
    };
    assert_eq!(
        r.to_json().unwrap(),
        "{\"status\":\"fail\",\"message\":\"a\\\"b\\\\c\\nd\\te\\u0001f\u{7f}é/\"}"
    );
    assert_eq!(
        ErrorResponse::json_from_quoted("\"s\"", "\"m\""),
        r#"{"status":"s","message":"m"}"#
    );
}

#[test]
fn missing_todo_is_answered_404() {
    let err = found_or_not_found::<u8>(None, 0x42).unwrap_err();
    let h = HttpError::from(err);
    assert_eq!(h.status, 404);
    assert_eq!(h.message, "Todo with id 00000000-0000-0000-0000-000000000042 not found");
    let body = h.error_body();
    assert_eq!(body.to_json().unwrap(), format!("{{\"status\":\"fail\",\"message\":\"{}\"}}", h.message));
}

fn all_messages() -> Vec<ErrorMessage> {
    vec![
        ErrorMessage::ServerError,
        ErrorMessage::BadRequest,
        ErrorMessage::Unauthorized,
        ErrorMessage::PermissionDenied,
        ErrorMessage::TodoNotFound,
        ErrorMessage::TodoValidationError,
        ErrorMessage::TodoAlreadyCompleted,
        ErrorMessage::EmptyPassword,
        ErrorMessage::ExceededMaxPasswordLength(0),
        ErrorMessage::ExceededMaxPasswordLength(8),
        ErrorMessage::ExceededMaxPasswordLength(80),
        ErrorMessage::ExceededMaxPasswordLength(usize::MAX),
        ErrorMessage::InvalidHashFormat,
        ErrorMessage::HashingError,
        ErrorMessage::InvalidToken,
        ErrorMessage::WrongCredentials,
        ErrorMessage::EmailExist,
        ErrorMessage::UserNoLongerExist,
        ErrorMessage::TokenNotProvided,
        ErrorMessage::UserNotAuthenticated,
    ]
}

#[test]
fn message_texts_are_distinct_and_clean() {
    let msgs = all_messages();
    for (i, a) in msgs.iter().enumerate() {
        let ta = a.to_str();
        assert!(!ta.is_empty());
        assert_eq!(ta.trim(), ta);
        assert!(!ta.contains('{') && !ta.contains('}'));
        for (j, b) in msgs.iter().enumerate() {
            assert_eq!(ta == b.to_str(), i == j);
        }
    }
}

#[test]
fn error_body_json_reads_back() {
    for (status, message) in [
        ("fail", "Todo not found"),
        ("fail", "quote \" back\\slash \u{1} tab\t end"),
        ("", ""),
        ("x\"y", "\",\"message\":\"z"),
    ] {
        let r = ErrorResponse { status: status.to_string(), message: message.to_string() };
        let json = r.to_json().unwrap();
        let v: serde_json::Value = serde_json::from_str(&json).unwrap();
        assert_eq!(v["status"], status);
        assert_eq!(v["message"], message);
        assert_eq!(v.as_object().unwrap().len(), 2);
    }
}
