use openchat_server::dto::{InsertOutcome, RegisterBody};
use openchat_server::error::{ApiError, ErrorKind};
use openchat_server::register::{register_step, RegisterAction, RegisterEvent};

fn body(username: &str, password: &str, display_name: &str) -> RegisterBody {
    RegisterBody {
        username: username.to_string(),
        password: password.to_string(),
        display_name: display_name.to_string(),
    }
}

fn rejection(a: RegisterAction) -> ApiError {
    match a {
        RegisterAction::Reject(e) => e,
        other => panic!("expected a rejection, got {:?}", kind_of(&other)),
    }
}

fn kind_of(a: &RegisterAction) -> &'static str {
    match a {
        RegisterAction::HashPassword => "HashPassword",
        RegisterAction::StoreUser => "StoreUser",
        RegisterAction::IssueTokens => "IssueTokens",
        RegisterAction::Reject(_) => "Reject",
    }
}

/// Drives the flow as the server does, with the hash and store outcomes given,
/// and lists the steps taken.
fn run(b: &RegisterBody, hash_ok: bool, stored: fn() -> InsertOutcome) -> Vec<&'static str> {
    let mut steps = Vec::new();
    let mut event = RegisterEvent::Received;
    loop {
        let action = register_step(b, event);
        steps.push(kind_of(&action));
        event = match action {
            RegisterAction::HashPassword => RegisterEvent::Hashed(hash_ok),
            RegisterAction::StoreUser => RegisterEvent::Stored(stored()),
            RegisterAction::IssueTokens | RegisterAction::Reject(_) => return steps,
        };
    }
}

#[test]
fn valid_request_goes_to_hashing() {
    let a = register_step(&body("alice", "password123", "Alice"), RegisterEvent::Received);
    assert_eq!(kind_of(&a), "HashPassword");
}

#[test]
fn invalid_request_is_rejected_first() {
    let e = rejection(register_step(&body("", "password123", "Alice"), RegisterEvent::Received));
    assert_eq!(e.kind, ErrorKind::BadRequest);
    assert_eq!(e.code.as_deref(), Some("invalid_username"));
}

#[test]
fn failed_hash_is_internal_error() {
    let e = rejection(register_step(&body("alice", "password123", "Alice"), RegisterEvent::Hashed(false)));
    assert_eq!(e.kind, ErrorKind::Internal);
    assert_eq!(e.status(), 500);
    assert_eq!(e.message, "password hash failed");
}

#[test]
fn produced_hash_goes_to_storing() {
    let a = register_step(&body("alice", "password123", "Alice"), RegisterEvent::Hashed(true));
    assert_eq!(kind_of(&a), "StoreUser");
}

#[test]
fn stored_user_gets_tokens() {
    let a = register_step(
        &body("alice", "password123", "Alice"),
        RegisterEvent::Stored(InsertOutcome::Inserted),
    );
    assert_eq!(kind_of(&a), "IssueTokens");
}

#[test]
fn taken_username_is_conflict() {
    let e = rejection(register_step(
        &body("alice", "password123", "Alice"),
        RegisterEvent::Stored(InsertOutcome::UniqueViolation),
    ));
    assert_eq!(e.status(), 409);
    assert_eq!(e.message, "username already taken");
}

#[test]
fn whole_flow_orders() {
    let ok = body("alice", "password123", "Alice");
    assert_eq!(run(&ok, true, || InsertOutcome::Inserted), ["HashPassword", "StoreUser", "IssueTokens"]);
    assert_eq!(run(&ok, false, || InsertOutcome::Inserted), ["HashPassword", "Reject"]);
    assert_eq!(run(&ok, true, || InsertOutcome::UniqueViolation), ["HashPassword", "StoreUser", "Reject"]);
    let bad = body("alice", "short", "Alice");
    assert_eq!(run(&bad, true, || InsertOutcome::Inserted), ["Reject"]);
}

#[test]
fn database_error_is_internal_with_message() {
    let e = ApiError::database("no such table: users".to_string());
    assert_eq!(e.kind, ErrorKind::Internal);
    assert_eq!(e.status(), 500);
    assert_eq!(e.code, None);
    assert_eq!(e.message, "no such table: users");
}
