//! The decisions of the account and authentication endpoints.
use vstd::prelude::*;
use vstd::utf8::encode_utf8;

use crate::dto::{
    AuthResponse, Claims, HealthResponse, InsertOutcome, LoginRecord, RegisterBody, UserRecord,
    UserResponse,
};
use crate::error::{
    bad_request_view, conflict_view, internal_view, unauthorized_view, ApiError, ApiErrorView,
    spec_status, ErrorKind,
};

verus! {

/// The length of a text in bytes, encoded as UTF-8.
pub open spec fn utf8_len(s: Seq<char>) -> nat {
    encode_utf8(s).len()
}

/// The first rule that a registration breaks, as the error that answers it,
/// or `None` when the registration keeps all of them: a username of 1 to 64
/// bytes, a password of at least 8 bytes, a display name of 1 to 128 bytes.
pub open spec fn register_violation(
    username: Seq<char>,
    password: Seq<char>,
    display_name: Seq<char>,
) -> Option<ApiErrorView> {
    if username.len() == 0 || utf8_len(username) > 64 {
        Some(bad_request_view("invalid_username"@, "username length must be 1–64"@))
    } else if utf8_len(password) < 8 {
        Some(bad_request_view("invalid_password"@, "password must be at least 8 characters"@))
    } else if display_name.len() == 0 || utf8_len(display_name) > 128 {
        Some(bad_request_view("invalid_display_name"@, "display_name length must be 1–128"@))
    } else {
        None
    }
}

/// Every registration that breaks a rule is answered with a 400.
pub proof fn registration_errors_are_bad_requests(
    username: Seq<char>,
    password: Seq<char>,
    display_name: Seq<char>,
)
    ensures
        register_violation(username, password, display_name) matches Some(e) ==> spec_status(
            e.kind,
        ) == 400,
{
}

/// A registration is accepted exactly when its username is 1 to 64 bytes,
/// its password at least 8 bytes and its display name 1 to 128 bytes (in
/// UTF-8), whatever characters they hold; otherwise the first bound broken,
/// in that order, names the error.
pub proof fn registration_bounds(username: Seq<char>, password: Seq<char>, display_name: Seq<char>)
    ensures
        register_violation(username, password, display_name) is None <==> (1 <= username.len()
            && encode_utf8(username).len() <= 64 && encode_utf8(password).len() >= 8 && 1
            <= display_name.len() && encode_utf8(display_name).len() <= 128),
        !(1 <= username.len() && encode_utf8(username).len() <= 64) ==> register_violation(
            username,
            password,
            display_name,
        ) == Some(bad_request_view("invalid_username"@, "username length must be 1–64"@)),
        (1 <= username.len() && encode_utf8(username).len() <= 64 && encode_utf8(password).len()
            < 8) ==> register_violation(username, password, display_name) == Some(
            bad_request_view("invalid_password"@, "password must be at least 8 characters"@),
        ),
        (1 <= username.len() && encode_utf8(username).len() <= 64 && encode_utf8(password).len()
            >= 8 && !(1 <= display_name.len() && encode_utf8(display_name).len() <= 128))
            ==> register_violation(username, password, display_name) == Some(
            bad_request_view("invalid_display_name"@, "display_name length must be 1–128"@),
        ),
{
}

/// Checks a registration against the length rules, in the order username,
/// password, display name; the first rule broken is the error returned.
pub fn validate_register(body: &RegisterBody) -> (r: Result<(), ApiError>)
    ensures
        match r {
            Ok(()) => register_violation(body.username@, body.password@, body.display_name@) is None,
            Err(e) => register_violation(body.username@, body.password@, body.display_name@)
                == Some(e@),
        },
        r is Ok <==> (1 <= body.username@.len() && encode_utf8(body.username@).len() <= 64
            && encode_utf8(body.password@).len() >= 8 && 1 <= body.display_name@.len()
            && encode_utf8(body.display_name@).len() <= 128),
        r matches Err(e) ==> e.kind == ErrorKind::BadRequest,
{
    // Lengths are counted in bytes of the UTF-8 encoding.
    let username = body.username.as_str();
    if username.is_empty() || username.as_bytes().len() > 64 {
        return Err(ApiError::bad_request("invalid_username", "username length must be 1–64"));
    }
    if body.password.as_str().as_bytes().len() < 8 {
        return Err(
            ApiError::bad_request("invalid_password", "password must be at least 8 characters"),
        );
    }
    let display_name = body.display_name.as_str();
    if display_name.is_empty() || display_name.as_bytes().len() > 128 {
        return Err(
            ApiError::bad_request("invalid_display_name", "display_name length must be 1–128"),
        );
    }
    Ok(())
}


/// The health check: the service answers that it is up.
pub fn health_handler() -> (r: HealthResponse)
    ensures
        r.status@ == "ok"@,
{
    HealthResponse { status: "ok" }
}

/// How storing a new user turns into the answer to a registration: a taken
/// username is a conflict, any other failure of the store an internal error.
pub fn check_user_insert(outcome: InsertOutcome) -> (r: Result<(), ApiError>)
    ensures
        match outcome {
            InsertOutcome::Inserted => r is Ok,
            InsertOutcome::UniqueViolation => r matches Err(e) && e@ == conflict_view(
                "username already taken"@,
            ),
            InsertOutcome::Failed(m) => r matches Err(e) && e@ == internal_view(m@),
        },
{
    match outcome {
        InsertOutcome::Inserted => Ok(()),
        InsertOutcome::UniqueViolation => Err(ApiError::conflict("username already taken")),
        InsertOutcome::Failed(message) => Err(ApiError::database(message)),
    }
}

/// The answer to every failed login, whatever the reason.
pub open spec fn login_rejection() -> ApiErrorView {
    unauthorized_view("invalid credentials"@)
}

/// The answer to a text-valued request, as a mathematical value.
pub open spec fn text_result_view(r: Result<String, ApiError>) -> Result<Seq<char>, ApiErrorView> {
    match r {
        Ok(s) => Ok(s@),
        Err(e) => Err(e@),
    }
}

/// How a login ends, given the id of the user it names (if stored) and
/// whether the password matched: the user's id, or the one rejection.
pub open spec fn login_result(user_id: Option<Seq<char>>, password_matches: bool) -> Result<
    Seq<char>,
    ApiErrorView,
> {
    match user_id {
        Some(id) => if password_matches {
            Ok(id)
        } else {
            Err(login_rejection())
        },
        None => Err(login_rejection()),
    }
}

/// Decides a login from the stored credentials of the named user, if any,
/// and from whether the password given matches the stored hash (which is
/// only consulted when the user exists). Answers the user's id on success.
pub fn login_subject(record: Option<LoginRecord>, password_matches: bool) -> (r: Result<
    String,
    ApiError,
>)
    ensures
        text_result_view(r) == login_result(
            match record {
                Some(rec) => Some(rec.user_id@),
                None => None,
            },
            password_matches,
        ),
        match record {
            Some(rec) => password_matches ==> (r matches Ok(id) && id@ == rec.user_id@),
            None => true,
        },
        r is Ok <==> (record is Some && password_matches),
        r matches Err(e) ==> e@ == unauthorized_view("invalid credentials"@),
{
    match record {
        None => Err(ApiError::unauthorized("invalid credentials")),
        Some(rec) => {
            if password_matches {
                Ok(rec.user_id)
            } else {
                Err(ApiError::unauthorized("invalid credentials"))
            }
        },
    }
}

/// A login of a stored user whose password matches succeeds with exactly
/// that user's id, whatever the id; any other login fails with 401
/// "invalid credentials".
pub proof fn matching_login_yields_user_id(user_id: Option<Seq<char>>, password_matches: bool)
    ensures
        match user_id {
            Some(id) => password_matches ==> login_result(user_id, password_matches) == Ok::<
                Seq<char>,
                ApiErrorView,
            >(id),
            None => true,
        },
        !(user_id is Some && password_matches) ==> login_result(user_id, password_matches)
            == Err::<Seq<char>, ApiErrorView>(unauthorized_view("invalid credentials"@)),
{
}

/// A failed login is answered the same whether the user does not exist or
/// the password is wrong, and that answer is a 401.
pub proof fn failed_logins_look_alike(user_id: Seq<char>, password_matches: bool)
    ensures
        login_result(None, password_matches) == login_result(Some(user_id), false),
        login_result(None, password_matches) matches Err(e) && spec_status(e.kind) == 401,
{
}

/// Whether a token of this type may be exchanged for new tokens.
pub open spec fn is_refresh_type(typ: Seq<char>) -> bool {
    typ == "refresh"@
}

/// Whether a token of this type grants access to the API.
pub open spec fn is_access_type(typ: Seq<char>) -> bool {
    typ == "access"@
}

/// What a token of this subject and type yields when presented for a refresh.
pub open spec fn refresh_result(sub: Seq<char>, typ: Seq<char>) -> Result<Seq<char>, ApiErrorView> {
    if is_refresh_type(typ) {
        Ok(sub)
    } else {
        Err(unauthorized_view("not a refresh token"@))
    }
}

/// What a token of this subject and type yields when presented for access.
pub open spec fn access_result(sub: Seq<char>, typ: Seq<char>) -> Result<Seq<char>, ApiErrorView> {
    if is_access_type(typ) {
        Ok(sub)
    } else {
        Err(unauthorized_view("not an access token"@))
    }
}

/// The subject of a token presented for a refresh, which must be a refresh token.
pub fn refresh_subject(claims: Claims) -> (r: Result<String, ApiError>)
    ensures
        text_result_view(r) == refresh_result(claims.sub@, claims.typ@),
        claims.typ@ == "refresh"@ ==> (r matches Ok(s) && s@ == claims.sub@),
        claims.typ@ != "refresh"@ ==> (r matches Err(e) && e@ == unauthorized_view(
            "not a refresh token"@,
        )),
{
    let expected = "refresh".to_owned();
    if claims.typ == expected {
        Ok(claims.sub)
    } else {
        Err(ApiError::unauthorized("not a refresh token"))
    }
}

/// The subject of a token presented for access, which must be an access token.
pub fn access_subject(claims: Claims) -> (r: Result<String, ApiError>)
    ensures
        text_result_view(r) == access_result(claims.sub@, claims.typ@),
        claims.typ@ == "access"@ ==> (r matches Ok(s) && s@ == claims.sub@),
        claims.typ@ != "access"@ ==> (r matches Err(e) && e@ == unauthorized_view(
            "not an access token"@,
        )),
{
    let expected = "access".to_owned();
    if claims.typ == expected {
        Ok(claims.sub)
    } else {
        Err(ApiError::unauthorized("not an access token"))
    }
}

/// A token of type `refresh` is accepted for a refresh and yields its
/// subject unchanged, whatever the subject; a token of any other type is
/// refused with 401 "not a refresh token".
pub proof fn refresh_tokens_yield_their_subject(sub: Seq<char>, typ: Seq<char>)
    ensures
        typ == "refresh"@ ==> refresh_result(sub, typ) == Ok::<Seq<char>, ApiErrorView>(sub),
        typ != "refresh"@ ==> refresh_result(sub, typ) == Err::<Seq<char>, ApiErrorView>(
            unauthorized_view("not a refresh token"@),
        ),
{
}

/// A token of type `access` grants access as its subject, whatever the
/// subject; a token of any other type is refused with 401 "not an access token".
pub proof fn access_tokens_yield_their_subject(sub: Seq<char>, typ: Seq<char>)
    ensures
        typ == "access"@ ==> access_result(sub, typ) == Ok::<Seq<char>, ApiErrorView>(sub),
        typ != "access"@ ==> access_result(sub, typ) == Err::<Seq<char>, ApiErrorView>(
            unauthorized_view("not an access token"@),
        ),
{
}

/// No token is both accepted for a refresh and accepted for access: a refresh
/// token cannot be used as an access token, nor the other way round.
pub proof fn token_types_are_exclusive(sub: Seq<char>, typ: Seq<char>)
    ensures
        !(refresh_result(sub, typ) is Ok && access_result(sub, typ) is Ok),
{
    reveal_strlit("refresh");
    reveal_strlit("access");
    assert("refresh"@.len() == 7);
    assert("access"@.len() == 6);
}

/// The tokens answered to a client, with the lifetime of the access token in seconds.
pub fn auth_response(access_token: String, refresh_token: String, expires_in: u64) -> (r:
    AuthResponse)
    ensures
        r.access_token == access_token,
        r.refresh_token == refresh_token,
        r.expires_in == expires_in,
{
    AuthResponse { access_token, refresh_token, expires_in }
}

/// The profile answered to the holder of an access token: the stored profile
/// of the user, without an avatar; a user that is not stored (or not active)
/// is refused.
pub fn me_response(record: Option<UserRecord>) -> (r: Result<UserResponse, ApiError>)
    ensures
        match record {
            Some(u) => r matches Ok(p) && p.id == u.id && p.username == u.username
                && p.display_name == u.display_name && p.avatar_url is None,
            None => r matches Err(e) && e@ == unauthorized_view("user not found"@),
        },
{
    match record {
        Some(u) => Ok(
            UserResponse { id: u.id, username: u.username, display_name: u.display_name, avatar_url: None },
        ),
        None => Err(ApiError::unauthorized("user not found")),
    }
}


} // verus!
