//! Error vocabulary of the service: user-facing messages, the application
//! error, and the HTTP error it is answered with.

use vstd::prelude::*;
use vstd::string::*;
use crate::text::{
    brace_free, brace_free_from, decimal, decimal_string, is_whitespace, json_quote, json_string,
    lemma_brace_free_from, lemma_decimal_chars, lemma_decimal_injective, lemma_json_string_prefix_free,
    uuid_string, uuid_text,
};

verus! {

/// The JSON body of an error answer: `{"status": .., "message": ..}`.
#[derive(Debug, Clone)]
pub struct ErrorResponse {
    pub status: String,
    pub message: String,
}

/// The compact JSON text of an object whose fields `status` and `message`
/// are given as already-quoted JSON string literals.
pub open spec fn error_response_object(status_json: Seq<char>, message_json: Seq<char>) -> Seq<char> {
    "{\"status\":"@ + status_json + ",\"message\":"@ + message_json + "}"@
}

/// The compact JSON text of an error answer with these two fields.
pub open spec fn error_response_json(status: Seq<char>, message: Seq<char>) -> Seq<char> {
    error_response_object(json_string(status), json_string(message))
}

impl ErrorResponse {
    /// Frames the object from the two field values, each already written as a
    /// JSON string literal.
    pub fn json_from_quoted(status_json: &str, message_json: &str) -> (r: String)
        ensures
            r@ == error_response_object(status_json@, message_json@),
    {
        let mut r = String::from_str("{\"status\":");
        r.append(status_json);
        r.append(",\"message\":");
        r.append(message_json);
        r.append("}");
        proof {
            assert(r@ =~= error_response_object(status_json@, message_json@));
        }
        r
    }

    /// The JSON text of this answer, as serde_json writes the struct (its
    /// `Display`); always present.
    pub fn to_json(&self) -> (r: Option<String>)
        ensures
            r matches Some(j) && j@ == error_response_json(self.status@, self.message@),
    {
        let status_json = json_quote(self.status.as_str());
        let message_json = json_quote(self.message.as_str());
        match (status_json, message_json) {
            (Some(s), Some(m)) => Some(Self::json_from_quoted(s.as_str(), m.as_str())),
            _ => None,
        }
    }
}

/// Messages shown to users. Most carry a fixed text; the password-length one
/// carries the limit it reports.
#[derive(Debug, PartialEq, Eq, Structural)]
pub enum ErrorMessage {
    ServerError,
    BadRequest,
    Unauthorized,
    PermissionDenied,
    TodoNotFound,
    TodoValidationError,
    TodoAlreadyCompleted,
    EmptyPassword,
    ExceededMaxPasswordLength(usize),
    InvalidHashFormat,
    HashingError,
    InvalidToken,
    WrongCredentials,
    EmailExist,
    UserNoLongerExist,
    TokenNotProvided,
    UserNotAuthenticated,
}

/// The text that each message reads.
pub open spec fn error_message_text(m: ErrorMessage) -> Seq<char> {
    match m {
        ErrorMessage::ServerError => "Server Error. Please try again later"@,
        ErrorMessage::BadRequest => "Bad request"@,
        ErrorMessage::Unauthorized => "Unauthorized"@,
        ErrorMessage::PermissionDenied => "You are not allowed to perform this action"@,
        ErrorMessage::TodoNotFound => "Todo not found"@,
        ErrorMessage::TodoValidationError => "Validation error"@,
        ErrorMessage::TodoAlreadyCompleted => "Todo is already completed"@,
        ErrorMessage::WrongCredentials => "Email or password is wrong"@,
        ErrorMessage::EmailExist => "A user with this email already exists"@,
        ErrorMessage::UserNoLongerExist => "User belonging to this token no longer exists"@,
        ErrorMessage::EmptyPassword => "Password cannot be empty"@,
        ErrorMessage::HashingError => "Error while hashing password"@,
        ErrorMessage::InvalidHashFormat => "Invalid password hash format"@,
        ErrorMessage::ExceededMaxPasswordLength(max_length) =>
            "Password must not be more than "@ + decimal(max_length as nat) + " characters"@,
        ErrorMessage::InvalidToken => "Authentication token is invalid or expired"@,
        ErrorMessage::TokenNotProvided => "You are not logged in, please provide a token"@,
        ErrorMessage::UserNotAuthenticated => "Authentication required. Please log in."@,
    }
}

impl ErrorMessage {
    /// The text of this message.
    pub fn to_str(&self) -> (r: String)
        ensures
            r@ == error_message_text(*self),
    {
        match self {
            ErrorMessage::ServerError => String::from_str("Server Error. Please try again later"),
            ErrorMessage::BadRequest => String::from_str("Bad request"),
            ErrorMessage::Unauthorized => String::from_str("Unauthorized"),
            ErrorMessage::PermissionDenied => {
                String::from_str("You are not allowed to perform this action")
            },
            ErrorMessage::TodoNotFound => String::from_str("Todo not found"),
            ErrorMessage::TodoValidationError => String::from_str("Validation error"),
            ErrorMessage::TodoAlreadyCompleted => String::from_str("Todo is already completed"),
            ErrorMessage::WrongCredentials => String::from_str("Email or password is wrong"),
            ErrorMessage::EmailExist => String::from_str("A user with this email already exists"),
            ErrorMessage::UserNoLongerExist => {
                String::from_str("User belonging to this token no longer exists")
            },
            ErrorMessage::EmptyPassword => String::from_str("Password cannot be empty"),
            ErrorMessage::HashingError => String::from_str("Error while hashing password"),
            ErrorMessage::InvalidHashFormat => String::from_str("Invalid password hash format"),
            ErrorMessage::ExceededMaxPasswordLength(max_length) => {
                let mut r = String::from_str("Password must not be more than ");
                let digits = decimal_string(*max_length as u64);
                r.append(digits.as_str());
                r.append(" characters");
                r
            },
            ErrorMessage::InvalidToken => {
                String::from_str("Authentication token is invalid or expired")
            },
            ErrorMessage::TokenNotProvided => {
                String::from_str("You are not logged in, please provide a token")
            },
            ErrorMessage::UserNotAuthenticated => {
                String::from_str("Authentication required. Please log in.")
            },
        }
    }

    /// The text of this message (what `ToString` gives).
    pub fn to_string(&self) -> (r: String)
        ensures
            r@ == error_message_text(*self),
    {
        self.to_str()
    }
}

/// Errors that the repository and the handlers report. Each carries the text
/// that explains it; a database failure carries the database driver's own
/// description of the failure.
#[derive(Debug)]
pub enum AppError {
    NotFound(String),
    BadRequest(String),
    Unauthorized(String),
    DatabaseError(String),
    Internal(String),
}

/// The text of an application error (what its `Display` writes).
pub open spec fn app_error_text(e: AppError) -> Seq<char> {
    match e {
        AppError::NotFound(msg) => "Not found: "@ + msg@,
        AppError::BadRequest(msg) => "Bad request: "@ + msg@,
        AppError::Unauthorized(msg) => "Unauthorized: "@ + msg@,
        AppError::DatabaseError(msg) => "Database error: "@ + msg@,
        AppError::Internal(msg) => "Internal error: "@ + msg@,
    }
}

/// The message of the error reported when no todo has the identifier `id`.
pub open spec fn todo_not_found_text(id: u128) -> Seq<char> {
    "Todo with id "@ + uuid_text(id) + " not found"@
}

#[verifier::external_type_specification]
#[verifier::external_body]
pub struct ExSqlxError(sqlx::Error);

/// Prefixes `prefix` to `msg`.
fn prefixed(prefix: &str, msg: &String) -> (r: String)
    ensures
        r@ == prefix@ + msg@,
{
    let mut r = String::from_str(prefix);
    r.append(msg.as_str());
    r
}

impl AppError {
    /// The text of this error (what its `Display` writes).
    pub fn to_string(&self) -> (r: String)
        ensures
            r@ == app_error_text(*self),
    {
        match self {
            AppError::NotFound(msg) => prefixed("Not found: ", msg),
            AppError::BadRequest(msg) => prefixed("Bad request: ", msg),
            AppError::Unauthorized(msg) => prefixed("Unauthorized: ", msg),
            AppError::DatabaseError(msg) => prefixed("Database error: ", msg),
            AppError::Internal(msg) => prefixed("Internal error: ", msg),
        }
    }

    /// Wraps a failure of the database driver, keeping the driver's
    /// description of it: the text that the error's `Display` writes.
    pub fn from_database_error(e: sqlx::Error) -> (r: AppError)
        ensures
            r matches AppError::DatabaseError(msg)
                && to_string_from_display_ensures::<sqlx::Error>(&e, msg),
    {
        AppError::DatabaseError(e.to_string())
    }

    /// The error reported when no todo has the identifier `id`.
    pub fn todo_not_found(id: u128) -> (r: AppError)
        ensures
            r matches AppError::NotFound(msg) && msg@ == todo_not_found_text(id),
    {
        let mut msg = String::from_str("Todo with id ");
        let id_text = uuid_string(id);
        msg.append(id_text.as_str());
        msg.append(" not found");
        AppError::NotFound(msg)
    }
}

/// The value that a lookup found, or the not-found error for `id` when it
/// found nothing.
pub fn found_or_not_found<T>(found: Option<T>, id: u128) -> (r: Result<T, AppError>)
    ensures
        match found {
            Some(v) => r == Ok::<T, AppError>(v),
            None => r matches Err(AppError::NotFound(msg)) && msg@ == todo_not_found_text(id),
        },
{
    match found {
        Some(v) => Ok(v),
        None => Err(AppError::todo_not_found(id)),
    }
}

/// The reason phrase that the `http` crate registers for a status code
/// (`StatusCode::canonical_reason`), if it registers one.
pub uninterp spec fn canonical_reason(code: u16) -> Option<Seq<char>>;

/// `http::StatusCode::from_u16` (which accepts every code in `100..=999`)
/// followed by `StatusCode::canonical_reason`.
/// Claimed: the phrase is the one the `http` crate registers for `code`,
/// a function of `code` alone; which codes have one is not stated.
#[verifier::external_body]
fn status_reason(code: u16) -> (r: Option<&'static str>)
    requires
        100 <= code <= 999,
    ensures
        match r {
            Some(p) => canonical_reason(code) == Some(p@),
            None => canonical_reason(code) == None::<Seq<char>>,
        },
{
    match axum::http::StatusCode::from_u16(code) {
        Ok(status) => status.canonical_reason(),
        Err(_) => None,
    }
}

/// How an HTTP status code is written: the number, a space, and the
/// registered reason phrase (or `<unknown status code>` when there is none).
pub open spec fn status_text(code: u16) -> Seq<char> {
    decimal(code as nat) + " "@ + match canonical_reason(code) {
        Some(p) => p,
        None => "<unknown status code>"@,
    }
}

/// The text of an HTTP error (what its `Display` writes).
pub open spec fn http_error_text(message: Seq<char>, status: u16) -> Seq<char> {
    "HttpError: message: "@ + message + ", status: "@ + status_text(status)
}

/// An error answer: its message and its HTTP status code.
#[derive(Debug, Clone)]
pub struct HttpError {
    pub message: String,
    pub status: u16,
}

impl HttpError {
    /// The status is one that an HTTP status code can hold.
    pub open spec fn wf(&self) -> bool {
        100 <= self.status <= 999
    }

    /// An error answer with the given message and status.
    pub fn new(message: String, status: u16) -> (r: HttpError)
        requires
            100 <= status <= 999,
        ensures
            r == (HttpError { message, status }),
            r.wf(),
    {
        HttpError { message, status }
    }

    /// `500 Internal Server Error` with this message.
    pub fn server_error(message: String) -> (r: HttpError)
        ensures
            r == (HttpError { message, status: 500 }),
            r.wf(),
    {
        HttpError { message, status: 500 }
    }

    /// `400 Bad Request` with this message.
    pub fn bad_request(message: String) -> (r: HttpError)
        ensures
            r == (HttpError { message, status: 400 }),
            r.wf(),
    {
        HttpError { message, status: 400 }
    }

    /// `404 Not Found` with this message.
    pub fn not_found(message: String) -> (r: HttpError)
        ensures
            r == (HttpError { message, status: 404 }),
            r.wf(),
    {
        HttpError { message, status: 404 }
    }

    /// `409 Conflict` with this message.
    pub fn unique_constraint_violation(message: String) -> (r: HttpError)
        ensures
            r == (HttpError { message, status: 409 }),
            r.wf(),
    {
        HttpError { message, status: 409 }
    }

    /// `401 Unauthorized` with this message.
    pub fn unauthorized(message: String) -> (r: HttpError)
        ensures
            r == (HttpError { message, status: 401 }),
            r.wf(),
    {
        HttpError { message, status: 401 }
    }

    /// The JSON body that answers this error: status `fail` and the error's
    /// message.
    pub fn error_body(&self) -> (r: ErrorResponse)
        ensures
            r.status@ == "fail"@,
            r.message == self.message,
    {
        ErrorResponse { status: String::from_str("fail"), message: self.message.clone() }
    }

    /// The text of this error (what its `Display` writes).
    pub fn to_string(&self) -> (r: String)
        requires
            self.wf(),
        ensures
            r@ == http_error_text(self.message@, self.status),
    {
        let mut r = String::from_str("HttpError: message: ");
        r.append(self.message.as_str());
        r.append(", status: ");
        let code = decimal_string(self.status as u64);
        r.append(code.as_str());
        r.append(" ");
        match status_reason(self.status) {
            Some(p) => r.append(p),
            None => r.append("<unknown status code>"),
        }
        proof {
            assert(r@ =~= http_error_text(self.message@, self.status));
        }
        r
    }
}

/// The HTTP error that answers an application error: not-found is `404`,
/// bad-request `400`, unauthorized `401`, and database and internal failures
/// `500`; the message is carried over unchanged.
pub open spec fn http_error_for(e: AppError) -> HttpError {
    match e {
        AppError::NotFound(msg) => HttpError { message: msg, status: 404 },
        AppError::BadRequest(msg) => HttpError { message: msg, status: 400 },
        AppError::Unauthorized(msg) => HttpError { message: msg, status: 401 },
        AppError::DatabaseError(msg) => HttpError { message: msg, status: 500 },
        AppError::Internal(msg) => HttpError { message: msg, status: 500 },
    }
}

impl From<AppError> for HttpError {
    fn from(err: AppError) -> (r: HttpError) {
        match err {
            AppError::NotFound(msg) => HttpError::not_found(msg),
            AppError::BadRequest(msg) => HttpError::bad_request(msg),
            AppError::Unauthorized(msg) => HttpError::unauthorized(msg),
            AppError::DatabaseError(msg) => HttpError::server_error(msg),
            AppError::Internal(msg) => HttpError::server_error(msg),
        }
    }
}

impl vstd::std_specs::convert::FromSpecImpl<AppError> for HttpError {
    open spec fn obeys_from_spec() -> bool {
        true
    }

    open spec fn from_spec(err: AppError) -> HttpError {
        http_error_for(err)
    }
}

/// The text an application error carries.
pub open spec fn app_error_message(e: AppError) -> String {
    match e {
        AppError::NotFound(msg) => msg,
        AppError::BadRequest(msg) => msg,
        AppError::Unauthorized(msg) => msg,
        AppError::DatabaseError(msg) => msg,
        AppError::Internal(msg) => msg,
    }
}

/// Law: every application error is answered with the text it carries and
/// with a valid status, a client error (`4xx`) for not-found, bad-request and
/// unauthorized, a server error (`5xx`) for database and internal failures.
pub proof fn lemma_error_answer(e: AppError)
    ensures
        http_error_for(e).message == app_error_message(e),
        http_error_for(e).wf(),
        (400 <= http_error_for(e).status < 500) <==> (e is NotFound || e is BadRequest
            || e is Unauthorized),
        (500 <= http_error_for(e).status < 600) <==> (e is DatabaseError || e is Internal),
{
}


/// A message text that reads cleanly: not empty, with no white space at
/// either end and no brace (no unfilled placeholder).
pub open spec fn clean_text(s: Seq<char>) -> bool {
    &&& s.len() > 0
    &&& !is_whitespace(s[0])
    &&& !is_whitespace(s.last())
    &&& brace_free(s)
}

proof fn lemma_message_literals()
    ensures
        brace_free("Server Error. Please try again later"@),
        brace_free("Bad request"@),
        brace_free("Unauthorized"@),
        brace_free("You are not allowed to perform this action"@),
        brace_free("Todo not found"@),
        brace_free("Validation error"@),
        brace_free("Todo is already completed"@),
        brace_free("Email or password is wrong"@),
        brace_free("A user with this email already exists"@),
        brace_free("User belonging to this token no longer exists"@),
        brace_free("Password cannot be empty"@),
        brace_free("Error while hashing password"@),
        brace_free("Invalid password hash format"@),
        brace_free("Password must not be more than "@),
        brace_free(" characters"@),
        brace_free("Authentication token is invalid or expired"@),
        brace_free("You are not logged in, please provide a token"@),
        brace_free("Authentication required. Please log in."@),
        !is_whitespace("Server Error. Please try again later"@[0]) && !is_whitespace("Server Error. Please try again later"@.last()),
        !is_whitespace("Bad request"@[0]) && !is_whitespace("Bad request"@.last()),
        !is_whitespace("Unauthorized"@[0]) && !is_whitespace("Unauthorized"@.last()),
        !is_whitespace("You are not allowed to perform this action"@[0]) && !is_whitespace("You are not allowed to perform this action"@.last()),
        !is_whitespace("Todo not found"@[0]) && !is_whitespace("Todo not found"@.last()),
        !is_whitespace("Validation error"@[0]) && !is_whitespace("Validation error"@.last()),
        !is_whitespace("Todo is already completed"@[0]) && !is_whitespace("Todo is already completed"@.last()),
        !is_whitespace("Email or password is wrong"@[0]) && !is_whitespace("Email or password is wrong"@.last()),
        !is_whitespace("A user with this email already exists"@[0]) && !is_whitespace("A user with this email already exists"@.last()),
        !is_whitespace("User belonging to this token no longer exists"@[0]) && !is_whitespace("User belonging to this token no longer exists"@.last()),
        !is_whitespace("Password cannot be empty"@[0]) && !is_whitespace("Password cannot be empty"@.last()),
        !is_whitespace("Error while hashing password"@[0]) && !is_whitespace("Error while hashing password"@.last()),
        !is_whitespace("Invalid password hash format"@[0]) && !is_whitespace("Invalid password hash format"@.last()),
        !is_whitespace("Authentication token is invalid or expired"@[0]) && !is_whitespace("Authentication token is invalid or expired"@.last()),
        !is_whitespace("You are not logged in, please provide a token"@[0]) && !is_whitespace("You are not logged in, please provide a token"@.last()),
        !is_whitespace("Authentication required. Please log in."@[0]) && !is_whitespace("Authentication required. Please log in."@.last()),
{
    reveal_with_fuel(brace_free_from, 50);
    reveal_strlit("Server Error. Please try again later");
    reveal_strlit("Bad request");
    reveal_strlit("Unauthorized");
    reveal_strlit("You are not allowed to perform this action");
    reveal_strlit("Todo not found");
    reveal_strlit("Validation error");
    reveal_strlit("Todo is already completed");
    reveal_strlit("Email or password is wrong");
    reveal_strlit("A user with this email already exists");
    reveal_strlit("User belonging to this token no longer exists");
    reveal_strlit("Password cannot be empty");
    reveal_strlit("Error while hashing password");
    reveal_strlit("Invalid password hash format");
    reveal_strlit("Password must not be more than ");
    reveal_strlit(" characters");
    reveal_strlit("Authentication token is invalid or expired");
    reveal_strlit("You are not logged in, please provide a token");
    reveal_strlit("Authentication required. Please log in.");
    lemma_brace_free_from("Server Error. Please try again later"@, 0);
    lemma_brace_free_from("Bad request"@, 0);
    lemma_brace_free_from("Unauthorized"@, 0);
    lemma_brace_free_from("You are not allowed to perform this action"@, 0);
    lemma_brace_free_from("Todo not found"@, 0);
    lemma_brace_free_from("Validation error"@, 0);
    lemma_brace_free_from("Todo is already completed"@, 0);
    lemma_brace_free_from("Email or password is wrong"@, 0);
    lemma_brace_free_from("A user with this email already exists"@, 0);
    lemma_brace_free_from("User belonging to this token no longer exists"@, 0);
    lemma_brace_free_from("Password cannot be empty"@, 0);
    lemma_brace_free_from("Error while hashing password"@, 0);
    lemma_brace_free_from("Invalid password hash format"@, 0);
    lemma_brace_free_from("Password must not be more than "@, 0);
    lemma_brace_free_from(" characters"@, 0);
    lemma_brace_free_from("Authentication token is invalid or expired"@, 0);
    lemma_brace_free_from("You are not logged in, please provide a token"@, 0);
    lemma_brace_free_from("Authentication required. Please log in."@, 0);
}

/// Law: every message has its own text (distinct messages, and distinct
/// password limits, read differently), and every text reads cleanly.
pub proof fn lemma_error_message_texts(a: ErrorMessage, b: ErrorMessage)
    ensures
        (error_message_text(a) == error_message_text(b)) <==> (a == b),
        clean_text(error_message_text(a)),
{
    lemma_message_literals();
    reveal_strlit("Server Error. Please try again later");
    reveal_strlit("Bad request");
    reveal_strlit("Unauthorized");
    reveal_strlit("You are not allowed to perform this action");
    reveal_strlit("Todo not found");
    reveal_strlit("Validation error");
    reveal_strlit("Todo is already completed");
    reveal_strlit("Email or password is wrong");
    reveal_strlit("A user with this email already exists");
    reveal_strlit("User belonging to this token no longer exists");
    reveal_strlit("Password cannot be empty");
    reveal_strlit("Error while hashing password");
    reveal_strlit("Invalid password hash format");
    reveal_strlit("Password must not be more than ");
    reveal_strlit(" characters");
    reveal_strlit("Authentication token is invalid or expired");
    reveal_strlit("You are not logged in, please provide a token");
    reveal_strlit("Authentication required. Please log in.");
    let prefix = "Password must not be more than "@;
    let suffix = " characters"@;
    if let ErrorMessage::ExceededMaxPasswordLength(n) = a {
        lemma_decimal_chars(n as nat);
        let t = error_message_text(a);
        let d = decimal(n as nat);
        assert(t =~= prefix + d + suffix);
        assert forall|k: int| 0 <= k < t.len() implies t[k] != '{' && t[k] != '}' by {
            if k < prefix.len() {
                assert(t[k] == prefix[k]);
            } else if k < prefix.len() + d.len() {
                assert(t[k] == d[k - prefix.len()]);
            } else {
                assert(t[k] == suffix[k - prefix.len() - d.len()]);
            }
        }
        assert(t[0] == prefix[0]);
        assert(t.last() == suffix.last());
        if let ErrorMessage::ExceededMaxPasswordLength(m) = b {
            lemma_decimal_chars(m as nat);
            let e = decimal(m as nat);
            if error_message_text(a) == error_message_text(b) {
                assert(error_message_text(b) =~= prefix + e + suffix);
                assert(d.len() == e.len());
                assert(d =~= t.subrange(prefix.len() as int, (prefix.len() + d.len()) as int));
                assert(e =~= error_message_text(b).subrange(prefix.len() as int, (prefix.len() + e.len()) as int));
                lemma_decimal_injective(n as nat, m as nat);
            }
        } else {
            assert(error_message_text(a) != error_message_text(b)) by {
                if error_message_text(a) == error_message_text(b) {
                    assert(error_message_text(b)[0] == t[0]);
                    assert(error_message_text(b).len() == t.len());
                }
            }
        }
    } else if let ErrorMessage::ExceededMaxPasswordLength(m) = b {
        lemma_decimal_chars(m as nat);
        let t = error_message_text(b);
        assert(t =~= prefix + decimal(m as nat) + suffix);
        assert(t[0] == prefix[0]);
        if error_message_text(a) == error_message_text(b) {
            assert(error_message_text(a)[0] == t[0]);
            assert(error_message_text(a).len() == t.len());
        }
    }
}


/// Law: the JSON body of an error answer determines both of its fields, so
/// reading it back gives the same status and the same message.
pub proof fn lemma_error_response_json_injective(
    status1: Seq<char>,
    message1: Seq<char>,
    status2: Seq<char>,
    message2: Seq<char>,
)
    requires
        error_response_json(status1, message1) == error_response_json(status2, message2),
    ensures
        status1 == status2,
        message1 == message2,
{
    let p = "{\"status\":"@;
    let m = ",\"message\":"@;
    let c = "}"@;
    let q1 = json_string(status1);
    let q2 = json_string(status2);
    let w1 = json_string(message1);
    let w2 = json_string(message2);
    let j1 = error_response_json(status1, message1);
    let j2 = error_response_json(status2, message2);
    assert(j1.skip(p.len() as int) =~= q1 + (m + w1 + c));
    assert(j2.skip(p.len() as int) =~= q2 + (m + w2 + c));
    lemma_json_string_prefix_free(status1, status2, m + w1 + c, m + w2 + c);
    assert((m + w1 + c).skip(m.len() as int) =~= w1 + c);
    assert((m + w2 + c).skip(m.len() as int) =~= w2 + c);
    lemma_json_string_prefix_free(message1, message2, c, c);
}


/// Law: the HTTP answer to an application error depends on the error's kind
/// alone and keeps its whole message: for every message `m`, not-found is
/// answered `404`, bad-request `400`, unauthorized `401`, and database and
/// internal failures `500`, each with message `m`.
pub proof fn lemma_error_status_by_kind(m: String)
    ensures
        http_error_for(AppError::NotFound(m)) == (HttpError { message: m, status: 404 }),
        http_error_for(AppError::BadRequest(m)) == (HttpError { message: m, status: 400 }),
        http_error_for(AppError::Unauthorized(m)) == (HttpError { message: m, status: 401 }),
        http_error_for(AppError::DatabaseError(m)) == (HttpError { message: m, status: 500 }),
        http_error_for(AppError::Internal(m)) == (HttpError { message: m, status: 500 }),
{
}

/// Law: the text of an application error is its kind's prefix followed by
/// the whole message it carries, for every message `m`; so the message is the
/// text with the prefix taken off.
pub proof fn lemma_app_error_text_by_kind(m: String)
    ensures
        app_error_text(AppError::NotFound(m)) == "Not found: "@ + m@,
        app_error_text(AppError::BadRequest(m)) == "Bad request: "@ + m@,
        app_error_text(AppError::Unauthorized(m)) == "Unauthorized: "@ + m@,
        app_error_text(AppError::DatabaseError(m)) == "Database error: "@ + m@,
        app_error_text(AppError::Internal(m)) == "Internal error: "@ + m@,
        app_error_text(AppError::NotFound(m)).skip("Not found: "@.len() as int) == m@,
        app_error_text(AppError::BadRequest(m)).skip("Bad request: "@.len() as int) == m@,
        app_error_text(AppError::Unauthorized(m)).skip("Unauthorized: "@.len() as int) == m@,
        app_error_text(AppError::DatabaseError(m)).skip("Database error: "@.len() as int) == m@,
        app_error_text(AppError::Internal(m)).skip("Internal error: "@.len() as int) == m@,
{
    assert(("Not found: "@ + m@).skip("Not found: "@.len() as int) =~= m@);
    assert(("Bad request: "@ + m@).skip("Bad request: "@.len() as int) =~= m@);
    assert(("Unauthorized: "@ + m@).skip("Unauthorized: "@.len() as int) =~= m@);
    assert(("Database error: "@ + m@).skip("Database error: "@.len() as int) =~= m@);
    assert(("Internal error: "@ + m@).skip("Internal error: "@.len() as int) =~= m@);
}

/// Law: for every status code the text of an HTTP error with message `m` is
/// `HttpError: message: <m>, status: <code> ` followed by the reason phrase
/// the `http` crate registers for the code whenever it registers one, and by
/// `<unknown status code>` exactly when it registers none, whatever the
/// code's class.
pub proof fn lemma_http_error_text_reason(m: Seq<char>, code: u16)
    ensures
        canonical_reason(code) matches Some(p) ==> http_error_text(m, code)
            == "HttpError: message: "@ + m + ", status: "@ + decimal(code as nat) + " "@ + p,
        canonical_reason(code) is None ==> http_error_text(m, code)
            == "HttpError: message: "@ + m + ", status: "@ + decimal(code as nat) + " "@
            + "<unknown status code>"@,
{
    let head = "HttpError: message: "@ + m + ", status: "@ + decimal(code as nat) + " "@;
    match canonical_reason(code) {
        Some(p) => {
            assert(http_error_text(m, code) =~= head + p);
        },
        None => {
            assert(http_error_text(m, code) =~= head + "<unknown status code>"@);
        },
    }
}

} // verus!
