use openchat_server::api_doc::ApiDoc;
use openchat_server::auth::{
    access_subject, auth_response, check_user_insert, health_handler,
    login_subject, me_response, refresh_subject, validate_register,
};
use openchat_server::bearer::bearer_token;
use openchat_server::dto::{Claims, InsertOutcome, LoginRecord, RegisterBody, UserRecord};
use openchat_server::error::{ApiError, ErrorKind};

fn body(username: &str, password: &str, display_name: &str) -> RegisterBody {
    RegisterBody {
        username: username.to_string(),
        password: password.to_string(),
        display_name: display_name.to_string(),
    }
}

fn assert_bad_request(r: Result<(), ApiError>, code: &str, message: &str) {
    let e = r.expect_err("expected a bad request");
    assert_eq!(e.kind, ErrorKind::BadRequest);
    assert_eq!(e.status(), 400);
    assert_eq!(e.code.as_deref(), Some(code));
    assert_eq!(e.message, message);
}

fn assert_unauthorized<T: std::fmt::Debug>(r: Result<T, ApiError>, message: &str) {
    let e = r.expect_err("expected an authentication failure");
    assert_eq!(e.kind, ErrorKind::Unauthorized);
    assert_eq!(e.status(), 401);
    assert_eq!(e.code, None);
    assert_eq!(e.message, message);
}

#[test]
fn register_accepts_valid_body() {
    assert!(validate_register(&body("alice", "password123", "Alice")).is_ok());
}

#[test]
fn register_rejects_empty_username() {
    assert_bad_request(
        validate_register(&body("", "password123", "Alice")),
        "invalid_username",
        "username length must be 1–64",
    );
}

#[test]
fn register_username_limit_is_64_bytes() {
    assert!(validate_register(&body(&"a".repeat(64), "password123", "A")).is_ok());
    assert_bad_request(
        validate_register(&body(&"a".repeat(65), "password123", "A")),
        "invalid_username",
        "username length must be 1–64",
    );
}

#[test]
fn register_counts_username_in_utf8_bytes() {
    // 22 characters of 3 bytes each: 66 bytes.
    let name = "中".repeat(22);
    assert_eq!(name.chars().count(), 22);
    assert_bad_request(
        validate_register(&body(&name, "password123", "A")),
        "invalid_username",
        "username length must be 1–64",
    );
    // 21 of them: 63 bytes.
    assert!(validate_register(&body(&"中".repeat(21), "password123", "A")).is_ok());
}

#[test]
fn register_password_needs_8_bytes() {
    assert_bad_request(
        validate_register(&body("bob", "1234567", "Bob")),
        "invalid_password",
        "password must be at least 8 characters",
    );
    assert!(validate_register(&body("bob", "12345678", "Bob")).is_ok());
    // Two characters of 4 bytes each make 8 bytes.
    assert!(validate_register(&body("bob", "😀😀", "Bob")).is_ok());
}

#[test]
fn register_display_name_limits() {
    assert_bad_request(
        validate_register(&body("bob", "password123", "")),
        "invalid_display_name",
        "display_name length must be 1–128",
    );
    assert!(validate_register(&body("bob", "password123", &"d".repeat(128))).is_ok());
    assert_bad_request(
        validate_register(&body("bob", "password123", &"d".repeat(129))),
        "invalid_display_name",
        "display_name length must be 1–128",
    );
}

#[test]
fn register_reports_first_broken_rule() {
    assert_bad_request(
        validate_register(&body("", "short", "")),
        "invalid_username",
        "username length must be 1–64",
    );
    assert_bad_request(
        validate_register(&body("carol", "short", "")),
        "invalid_password",
        "password must be at least 8 characters",
    );
}

#[test]
fn insert_outcomes_map_to_answers() {
    assert!(check_user_insert(InsertOutcome::Inserted).is_ok());
    let e = check_user_insert(InsertOutcome::UniqueViolation).unwrap_err();
    assert_eq!(e.kind, ErrorKind::Conflict);
    assert_eq!(e.status(), 409);
    assert_eq!(e.message, "username already taken");
    let e = check_user_insert(InsertOutcome::Failed("disk I/O error".to_string())).unwrap_err();
    assert_eq!(e.kind, ErrorKind::Internal);
    assert_eq!(e.status(), 500);
    assert_eq!(e.message, "disk I/O error");
}

fn record(id: &str) -> LoginRecord {
    LoginRecord { user_id: id.to_string(), password_hash: "$argon2id$stored".to_string() }
}

#[test]
fn login_with_matching_password_yields_user_id() {
    assert_eq!(login_subject(Some(record("u-1")), true).unwrap(), "u-1");
}

#[test]
fn login_with_wrong_password_is_unauthorized() {
    assert_unauthorized(login_subject(Some(record("u-1")), false), "invalid credentials");
}

#[test]
fn login_of_unknown_user_is_unauthorized() {
    assert_unauthorized(login_subject(None, false), "invalid credentials");
    assert_unauthorized(login_subject(None, true), "invalid credentials");
}

#[test]
fn failed_logins_answer_alike() {
    let unknown = login_subject(None, false).unwrap_err();
    let wrong = login_subject(Some(record("u-2")), false).unwrap_err();
    assert_eq!(unknown.kind, wrong.kind);
    assert_eq!(unknown.code, wrong.code);
    assert_eq!(unknown.message, wrong.message);
}

fn claims(sub: &str, typ: &str) -> Claims {
    Claims { sub: sub.to_string(), typ: typ.to_string() }
}

#[test]
fn refresh_accepts_only_refresh_tokens() {
    assert_eq!(refresh_subject(claims("u-1", "refresh")).unwrap(), "u-1");
    assert_unauthorized(refresh_subject(claims("u-1", "access")), "not a refresh token");
    assert_unauthorized(refresh_subject(claims("u-1", "Refresh")), "not a refresh token");
    assert_unauthorized(refresh_subject(claims("u-1", "")), "not a refresh token");
}

#[test]
fn access_accepts_only_access_tokens() {
    assert_eq!(access_subject(claims("u-1", "access")).unwrap(), "u-1");
    assert_unauthorized(access_subject(claims("u-1", "refresh")), "not an access token");
    assert_unauthorized(access_subject(claims("u-1", "access ")), "not an access token");
}

#[test]
fn no_token_type_passes_both_checks() {
    for typ in ["access", "refresh", "", "id", "accessrefresh"] {
        let both = refresh_subject(claims("u", typ)).is_ok() && access_subject(claims("u", typ)).is_ok();
        assert!(!both, "type {typ} accepted twice");
    }
}

#[test]
fn bearer_token_missing_header() {
    assert_unauthorized(bearer_token(None), "missing Authorization");
}

#[test]
fn bearer_token_rejects_non_visible_bytes() {
    assert_unauthorized(bearer_token(Some(b"Bearer ab\x7fc")), "invalid Authorization");
    assert_unauthorized(bearer_token(Some("Bearer é".as_bytes())), "invalid Authorization");
    assert_unauthorized(bearer_token(Some(b"Bearer a\nb")), "invalid Authorization");
}

#[test]
fn bearer_token_requires_scheme() {
    assert_unauthorized(bearer_token(Some(b"Basic abc")), "expected Bearer token");
    assert_unauthorized(bearer_token(Some(b"Bearer")), "expected Bearer token");
    assert_unauthorized(bearer_token(Some(b"bearer abc")), "expected Bearer token");
    assert_unauthorized(bearer_token(Some(b"")), "expected Bearer token");
}

#[test]
fn bearer_token_returns_rest_of_header() {
    assert_eq!(bearer_token(Some(b"Bearer abc.def.ghi")).unwrap(), "abc.def.ghi");
    assert_eq!(bearer_token(Some(b"Bearer ")).unwrap(), "");
    assert_eq!(bearer_token(Some(b"Bearer  two\tparts")).unwrap(), " two\tparts");
}

#[test]
fn bearer_header_round_trip_example() {
    let token = "eyJhbGciOiJIUzI1NiJ9.eyJzdWIiOiJ1In0.c2ln";
    let header = format!("Bearer {}", token);
    assert_eq!(bearer_token(Some(header.as_bytes())).unwrap(), token);
}

#[test]
fn me_answers_stored_profile_without_avatar() {
    let u = UserRecord {
        id: "u-1".to_string(),
        username: "alice".to_string(),
        display_name: "Alice".to_string(),
    };
    let p = me_response(Some(u)).unwrap();
    assert_eq!(p.id, "u-1");
    assert_eq!(p.username, "alice");
    assert_eq!(p.display_name, "Alice");
    assert_eq!(p.avatar_url, None);
}

#[test]
fn me_refuses_unknown_user() {
    assert_unauthorized(me_response(None), "user not found");
}

#[test]
fn auth_response_carries_tokens_and_lifetime() {
    let r = auth_response("acc".to_string(), "ref".to_string(), 900);
    assert_eq!(r.access_token, "acc");
    assert_eq!(r.refresh_token, "ref");
    assert_eq!(r.expires_in, 900);
}

#[test]
fn health_is_ok() {
    assert_eq!(health_handler().status, "ok");
}

#[test]
fn error_statuses() {
    assert_eq!(ErrorKind::BadRequest.status(), 400);
    assert_eq!(ErrorKind::Unauthorized.status(), 401);
    assert_eq!(ErrorKind::Conflict.status(), 409);
    assert_eq!(ErrorKind::Internal.status(), 500);
    assert_eq!(ApiError::bad_request("c", "m").code.as_deref(), Some("c"));
    assert_eq!(ApiError::internal("password hash failed").status(), 500);
}

#[test]
fn api_doc_declares_bearer_scheme() {
    let s = ApiDoc::bearer_auth_scheme();
    assert_eq!(s.name, "bearer_auth");
    assert_eq!(s.bearer_format, "JWT");
    assert_eq!(s.description, "HS256 JWT（typ: access）");
}
