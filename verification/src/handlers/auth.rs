use crate::error::{lookup_view, ApiError, Lookup};
use crate::models::{NewUser, NewUserView, Timestamp, User, UserView};
use crate::routes::auth::{LoginRequest, LoginRequestView, LoginResponse, RegisterRequest, RegisterRequestView};
use crate::models::text_of_str;
use crate::policy::{is_known_role, is_role};
use crate::utils::auth::{authenticated, extract_claims_at};
use crate::utils::jwt::{create_jwt_at, issued, utc_now, Claims, ClaimsView};
use crate::utils::password::{hash_password, password_matches, verify_password};
use vstd::prelude::*;
use vstd::string::StringExecFns;

verus! {

/// The outcome of a registration, once the password was hashed to
/// `digest`. A role that is neither of the two a user can have is a
/// `BadRequest`. Else the user to store: the payload's address, name and
/// role, the digest in place of the password, and `now` as the time of
/// creation.
pub open spec fn registered(payload: RegisterRequestView, digest: Seq<char>, now: Timestamp) -> Result<
    NewUserView,
    ApiError,
> {
    if is_role(payload.role) {
        Ok(
            NewUserView {
                email: payload.email,
                name: payload.name,
                password: digest,
                role: payload.role,
                created_at: Some(now),
            },
        )
    } else {
        Err(ApiError::BadRequest)
    }
}

/// The outcome of a login at `now`, where `found` is what the lookup of
/// the payload's address returned. An unknown address and a wrong password
/// are the same `Unauthenticated`; a lookup that failed and a token that
/// cannot be issued are an `InternalError`.
pub open spec fn logged_in(
    payload: LoginRequestView,
    found: Lookup<UserView>,
    secret: Seq<char>,
    now: i64,
) -> Result<Seq<char>, ApiError> {
    match found {
        Err(_) => Err(ApiError::InternalError),
        Ok(None) => Err(ApiError::Unauthenticated),
        Ok(Some(user)) => if password_matches(payload.password, user.password) {
            match issued(user.email, secret, now) {
                Some(token) => Ok(token),
                None => Err(ApiError::InternalError),
            }
        } else {
            Err(ApiError::Unauthenticated)
        },
    }
}

/// Whether `r` is what a login answers at `now`.
pub open spec fn is_login(
    payload: LoginRequestView,
    found: Lookup<UserView>,
    secret: Seq<char>,
    now: i64,
    r: Result<LoginResponse, ApiError>,
) -> bool {
    match r {
        Ok(body) => logged_in(payload, found, secret, now) == Ok::<Seq<char>, ApiError>(body@),
        Err(e) => logged_in(payload, found, secret, now) == Err::<Seq<char>, ApiError>(e),
    }
}

/// The line that tells the caller with this subject who they are.
pub open spec fn greeting(sub: Seq<char>) -> Seq<char> {
    "👤 Logged in as: "@ + sub
}

/// Whether `r` is what asking who one is answers at `now`: the greeting
/// for the subject of the token, or the error of the guard.
pub open spec fn is_me(header: Option<Seq<char>>, secret: Seq<char>, now: i64, r: Result<String, ApiError>) -> bool {
    match r {
        Ok(line) => authenticated(header, secret, now) is Ok && line@ == greeting(
            authenticated(header, secret, now)->Ok_0.sub,
        ),
        Err(e) => authenticated(header, secret, now) == Err::<ClaimsView, ApiError>(e),
    }
}

/// Builds the user to store from a registration and the digest of its
/// password. A role outside the two that a user can have is refused.
pub fn new_user(payload: RegisterRequest, digest: String, now: Timestamp) -> (r: Result<NewUser, ApiError>)
    ensures
        match r {
            Ok(user) => registered(payload@, digest@, now) == Ok::<NewUserView, ApiError>(user@),
            Err(e) => registered(payload@, digest@, now) == Err::<NewUserView, ApiError>(e),
        },
{
    if !is_known_role(payload.role.as_str()) {
        return Err(ApiError::BadRequest);
    }
    Ok(
        NewUser {
            email: payload.email,
            name: payload.name,
            password: digest,
            role: payload.role,
            created_at: Some(now),
        },
    )
}

/// Decides a registration. A role outside the two that a user can have is
/// a `BadRequest`, and nothing is hashed for it. Else the password is
/// hashed and the user to store comes back: its password is a digest that
/// verifies against the payload's password. The only other error is
/// `InternalError`, where hashing failed.
pub fn register_user(payload: RegisterRequest, now: Timestamp) -> (r: Result<NewUser, ApiError>)
    ensures
        match r {
            Ok(user) => password_matches(payload@.password, user@.password) && registered(
                payload@,
                user@.password,
                now,
            ) == Ok::<NewUserView, ApiError>(user@),
            Err(e) => e == if is_role(payload@.role) {
                ApiError::InternalError
            } else {
                ApiError::BadRequest
            },
        },
{
    if !is_known_role(payload.role.as_str()) {
        return Err(ApiError::BadRequest);
    }
    match hash_password(payload.password.as_str()) {
        Ok(digest) => new_user(payload, digest, now),
        Err(e) => Err(e),
    }
}

/// The body that answers a login whose credentials held, given what the
/// issuing of the token answered.
pub fn login_response(token: Result<String, ApiError>) -> (r: Result<LoginResponse, ApiError>)
    ensures
        match r {
            Ok(body) => token == Ok::<String, ApiError>(body.token),
            Err(e) => token == Err::<String, ApiError>(e),
        },
{
    match token {
        Ok(token) => Ok(LoginResponse { token }),
        Err(e) => Err(e),
    }
}

/// Decides a login at the instant `now`. `found_user` is what the lookup
/// of the payload's address returned.
pub fn login_user_at(payload: &LoginRequest, found_user: &Lookup<User>, secret: &str, now: i64) -> (r:
    Result<LoginResponse, ApiError>)
    ensures
        is_login(payload@, lookup_view(*found_user), secret@, now, r),
{
    match found_user {
        Err(_) => Err(ApiError::InternalError),
        Ok(None) => Err(ApiError::Unauthenticated),
        Ok(Some(user)) => {
            if verify_password(payload.password.as_str(), user.password.as_str()) {
                login_response(create_jwt_at(user.email.as_str(), secret, now))
            } else {
                Err(ApiError::Unauthenticated)
            }
        },
    }
}

/// Decides a login at the current instant: the answer is that of
/// `login_user_at` at the instant the clock gave, which is not before the
/// epoch. So where the credentials hold, a token is owed wherever the
/// expiry a day from then can be written.
pub fn login_user(payload: &LoginRequest, found_user: &Lookup<User>, secret: &str) -> (r: Result<
    LoginResponse,
    ApiError,
>)
    ensures
        exists|now: i64|
            0 <= now && #[trigger] is_login(payload@, lookup_view(*found_user), secret@, now, r),
{
    let now = utc_now();
    let r = login_user_at(payload, found_user, secret, now);
    assert(is_login(payload@, lookup_view(*found_user), secret@, now, r));
    r
}

/// The line that tells an authenticated caller who they are.
pub fn greet(claims: &Claims) -> (r: String)
    ensures
        r@ == greeting(claims@.sub),
{
    "👤 Logged in as: ".to_owned().concat(claims.sub.as_str())
}

/// Tells the caller who they are, at the instant `now`: the guard judges
/// the header, and its error is handed on as it is.
pub fn me_at(header: Option<&str>, secret: &str, now: i64) -> (r: Result<String, ApiError>)
    ensures
        is_me(text_of_str(header), secret@, now, r),
{
    match extract_claims_at(header, secret, now) {
        Ok(claims) => Ok(greet(&claims)),
        Err(e) => Err(e),
    }
}

/// Tells the caller who they are, at the current instant: the answer is
/// that of `me_at` at the instant the clock gave, which is not before the
/// epoch.
pub fn me(header: Option<&str>, secret: &str) -> (r: Result<String, ApiError>)
    ensures
        exists|now: i64| 0 <= now && #[trigger] is_me(text_of_str(header), secret@, now, r),
{
    let now = utc_now();
    let r = me_at(header, secret, now);
    assert(is_me(text_of_str(header), secret@, now, r));
    r
}

/// Every user that a registration stores has one of the two roles.
pub proof fn law_registered_role_is_known(payload: RegisterRequestView, digest: Seq<char>, now: Timestamp)
    ensures
        registered(payload, digest, now) is Ok <==> is_role(payload.role),
        registered(payload, digest, now) is Ok ==> is_role(registered(payload, digest, now)->Ok_0.role),
        registered(payload, digest, now) is Err ==> registered(payload, digest, now)->Err_0
            == ApiError::BadRequest,
{
}

/// A login whose credentials hold is never `Unauthenticated`, and it
/// gives a token at every instant whose expiry can be written.
pub proof fn law_good_credentials_get_a_token(
    payload: LoginRequestView,
    found: Lookup<UserView>,
    secret: Seq<char>,
    now: i64,
)
    requires
        found is Ok,
        found->Ok_0 is Some,
        password_matches(payload.password, found->Ok_0->Some_0.password),
    ensures
        logged_in(payload, found, secret, now) != Err::<Seq<char>, ApiError>(
            ApiError::Unauthenticated,
        ),
        crate::utils::jwt::token_expiry(now) is Some ==> logged_in(payload, found, secret, now) is Ok,
{
}

} // verus!
