//! The registration flow: which step comes next, given how the last one ended.
use vstd::prelude::*;

use crate::auth::{check_user_insert, register_violation, validate_register};
use crate::dto::{InsertOutcome, RegisterBody};
use crate::error::{conflict_view, internal_view, ApiError, ApiErrorView, ErrorKind};

verus! {

/// How storing a new user ended, as a mathematical value.
pub enum StoreResult {
    Inserted,
    UniqueViolation,
    Failed(Seq<char>),
}

impl View for InsertOutcome {
    type V = StoreResult;

    open spec fn view(&self) -> StoreResult {
        match self {
            InsertOutcome::Inserted => StoreResult::Inserted,
            InsertOutcome::UniqueViolation => StoreResult::UniqueViolation,
            InsertOutcome::Failed(m) => StoreResult::Failed(m@),
        }
    }
}

/// What has just happened in a registration.
pub enum RegisterEvent {
    /// The request arrived.
    Received,
    /// Hashing the password ended; `true` when it produced a hash.
    Hashed(bool),
    /// Storing the user (with that hash) ended.
    Stored(InsertOutcome),
}

/// A [`RegisterEvent`] as a mathematical value.
pub enum RegisterEventView {
    Received,
    Hashed(bool),
    Stored(StoreResult),
}

impl View for RegisterEvent {
    type V = RegisterEventView;

    open spec fn view(&self) -> RegisterEventView {
        match self {
            RegisterEvent::Received => RegisterEventView::Received,
            RegisterEvent::Hashed(ok) => RegisterEventView::Hashed(*ok),
            RegisterEvent::Stored(o) => RegisterEventView::Stored(o@),
        }
    }
}

/// What the server must do next in a registration.
pub enum RegisterAction {
    /// Hash the password.
    HashPassword,
    /// Store the user with the hash.
    StoreUser,
    /// Issue the user's tokens and answer them.
    IssueTokens,
    /// Stop and answer this error.
    Reject(ApiError),
}

/// A [`RegisterAction`] as a mathematical value.
pub enum RegisterActionView {
    HashPassword,
    StoreUser,
    IssueTokens,
    Reject(ApiErrorView),
}

impl View for RegisterAction {
    type V = RegisterActionView;

    open spec fn view(&self) -> RegisterActionView {
        match self {
            RegisterAction::HashPassword => RegisterActionView::HashPassword,
            RegisterAction::StoreUser => RegisterActionView::StoreUser,
            RegisterAction::IssueTokens => RegisterActionView::IssueTokens,
            RegisterAction::Reject(e) => RegisterActionView::Reject(e@),
        }
    }
}

/// The next step of a registration of this body after this event: a valid
/// request goes on to hashing, a produced hash to storing, a stored user to
/// its tokens; a broken rule, a failed hash or a failed store ends it.
pub open spec fn register_next(
    username: Seq<char>,
    password: Seq<char>,
    display_name: Seq<char>,
    event: RegisterEventView,
) -> RegisterActionView {
    match event {
        RegisterEventView::Received => match register_violation(username, password, display_name) {
            Some(e) => RegisterActionView::Reject(e),
            None => RegisterActionView::HashPassword,
        },
        RegisterEventView::Hashed(ok) => if ok {
            RegisterActionView::StoreUser
        } else {
            RegisterActionView::Reject(internal_view("password hash failed"@))
        },
        RegisterEventView::Stored(r) => match r {
            StoreResult::Inserted => RegisterActionView::IssueTokens,
            StoreResult::UniqueViolation => RegisterActionView::Reject(
                conflict_view("username already taken"@),
            ),
            StoreResult::Failed(m) => RegisterActionView::Reject(internal_view(m)),
        },
    }
}

/// Decides the next step of a registration of `body` after `event`.
pub fn register_step(body: &RegisterBody, event: RegisterEvent) -> (a: RegisterAction)
    ensures
        a@ == register_next(body.username@, body.password@, body.display_name@, event@),
        event matches RegisterEvent::Stored(InsertOutcome::Failed(m)) ==> (a matches RegisterAction::Reject(
            e,
        ) && e.kind == ErrorKind::Internal && e.message@ == m@),
        a matches RegisterAction::Reject(e) && e.kind == ErrorKind::Conflict ==> (event matches RegisterEvent::Stored(
            InsertOutcome::UniqueViolation,
        )),
        a is IssueTokens <==> (event matches RegisterEvent::Stored(InsertOutcome::Inserted)),
{
    match event {
        RegisterEvent::Received => match validate_register(body) {
            Ok(()) => RegisterAction::HashPassword,
            Err(e) => RegisterAction::Reject(e),
        },
        RegisterEvent::Hashed(ok) => {
            if ok {
                RegisterAction::StoreUser
            } else {
                RegisterAction::Reject(ApiError::internal("password hash failed"))
            }
        },
        RegisterEvent::Stored(outcome) => match check_user_insert(outcome) {
            Ok(()) => RegisterAction::IssueTokens,
            Err(e) => RegisterAction::Reject(e),
        },
    }
}

/// After a store fails for any reason other than a taken username, the
/// registration is rejected with an internal error (500) carrying the
/// store's message; a conflict (409) is answered only for a taken username,
/// and tokens are issued only once the user is stored.
pub proof fn store_failures_are_internal(
    username: Seq<char>,
    password: Seq<char>,
    display_name: Seq<char>,
    event: RegisterEventView,
)
    ensures
        event matches RegisterEventView::Stored(StoreResult::Failed(m)) ==> register_next(
            username,
            password,
            display_name,
            event,
        ) == RegisterActionView::Reject(
            ApiErrorView { kind: ErrorKind::Internal, code: None, message: m },
        ),
        register_next(username, password, display_name, event) matches RegisterActionView::Reject(
            e,
        ) && e.kind == ErrorKind::Conflict ==> event == RegisterEventView::Stored(
            StoreResult::UniqueViolation,
        ),
        event == RegisterEventView::Stored(StoreResult::UniqueViolation) ==> register_next(
            username,
            password,
            display_name,
            event,
        ) == RegisterActionView::Reject(
            ApiErrorView { kind: ErrorKind::Conflict, code: None, message: "username already taken"@ },
        ),
        register_next(username, password, display_name, event) is IssueTokens <==> event
            == RegisterEventView::Stored(StoreResult::Inserted),
{
}

/// A valid request goes on to hashing and an invalid one is rejected with
/// its validation error; a produced hash goes on to storing the user, and a
/// failed hash is rejected with 500 "password hash failed".
pub proof fn request_and_hash_steps(
    username: Seq<char>,
    password: Seq<char>,
    display_name: Seq<char>,
    hash_ok: bool,
)
    ensures
        register_violation(username, password, display_name) is None ==> register_next(
            username,
            password,
            display_name,
            RegisterEventView::Received,
        ) == RegisterActionView::HashPassword,
        register_violation(username, password, display_name) matches Some(e) ==> register_next(
            username,
            password,
            display_name,
            RegisterEventView::Received,
        ) == RegisterActionView::Reject(e),
        hash_ok ==> register_next(username, password, display_name, RegisterEventView::Hashed(hash_ok))
            == RegisterActionView::StoreUser,
        !hash_ok ==> register_next(username, password, display_name, RegisterEventView::Hashed(hash_ok))
            == RegisterActionView::Reject(
            ApiErrorView { kind: ErrorKind::Internal, code: None, message: "password hash failed"@ },
        ),
{
}

/// The steps a registration takes when each is carried out as decided, the
/// hash succeeding when `hash_ok` and the store ending as `stored`: it stops
/// at the first rejection.
pub open spec fn register_run(
    username: Seq<char>,
    password: Seq<char>,
    display_name: Seq<char>,
    hash_ok: bool,
    stored: StoreResult,
) -> Seq<RegisterActionView> {
    let first = register_next(username, password, display_name, RegisterEventView::Received);
    let second = register_next(username, password, display_name, RegisterEventView::Hashed(hash_ok));
    let third = register_next(username, password, display_name, RegisterEventView::Stored(stored));
    if first is Reject {
        seq![first]
    } else if second is Reject {
        seq![first, second]
    } else {
        seq![first, second, third]
    }
}

/// A registration that breaks a rule is answered with that rule's error and
/// goes no further: nothing is hashed or stored and no token is issued.
/// Tokens are issued exactly when the request is valid, the hash succeeds and
/// the user is stored, and then as the last step.
pub proof fn registration_order(
    username: Seq<char>,
    password: Seq<char>,
    display_name: Seq<char>,
    hash_ok: bool,
    stored: StoreResult,
)
    ensures
        ({
            let run = register_run(username, password, display_name, hash_ok, stored);
            &&& register_violation(username, password, display_name) matches Some(e) ==> run
                == seq![RegisterActionView::Reject(e)]
            &&& (exists|i: int| 0 <= i < run.len() && run[i] is IssueTokens) <==> (
            register_violation(username, password, display_name) is None && hash_ok && stored
                is Inserted)
            &&& forall|i: int|
                0 <= i < run.len() && #[trigger] run[i] is IssueTokens ==> i == run.len() - 1
            &&& forall|i: int|
                0 <= i < run.len() && #[trigger] run[i] is StoreUser ==> i == 1 && run[0]
                    is HashPassword
        }),
{
    let run = register_run(username, password, display_name, hash_ok, stored);
    if register_violation(username, password, display_name) is None && hash_ok && stored is Inserted {
        assert(run[2] is IssueTokens);
    }
}

} // verus!
