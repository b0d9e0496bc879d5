use crate::error::{lookup_view, ApiError, Lookup};
use crate::models::{text_of_str, User, UserView};
use crate::utils::jwt::{utc_now, validated, Claims, ClaimsView};
use vstd::prelude::*;

verus! {

/// The scheme that an `Authorization` header must begin with: the word and
/// one blank, in exactly this case.
pub open spec fn bearer_prefix() -> Seq<char> {
    "Bearer "@
}

/// The token that an `Authorization` header value carries: what follows
/// the prefix, where the value begins with it.
pub open spec fn bearer_token(header: Seq<char>) -> Option<Seq<char>> {
    if bearer_prefix().is_prefix_of(header) {
        Some(header.subrange(7, header.len() as int))
    } else {
        None
    }
}

/// What the guard answers for a request whose `Authorization` header is
/// `header` (`None` where it has none): the claims of the token it
/// carries, or `Unauthenticated`.
pub open spec fn authenticated(header: Option<Seq<char>>, secret: Seq<char>, now: i64) -> Result<
    ClaimsView,
    ApiError,
> {
    match header {
        None => Err(ApiError::Unauthenticated),
        Some(h) => match bearer_token(h) {
            None => Err(ApiError::Unauthenticated),
            Some(token) => validated(token, secret, now),
        },
    }
}

/// Whether `r` is what the guard answers at `now`.
pub open spec fn is_authentication(
    header: Option<Seq<char>>,
    secret: Seq<char>,
    now: i64,
    r: Result<Claims, ApiError>,
) -> bool {
    match r {
        Ok(c) => authenticated(header, secret, now) == Ok::<ClaimsView, ApiError>(c@),
        Err(e) => authenticated(header, secret, now) == Err::<ClaimsView, ApiError>(e),
    }
}

/// The user that a token speaks for, given what the lookup of its subject
/// returned: that user, where one was found and carries the subject as
/// email. A token whose subject no longer resolves is `Unauthenticated`; a
/// lookup that failed is an `InternalError`.
pub open spec fn caller_of(claims: ClaimsView, found: Lookup<UserView>) -> Result<UserView, ApiError> {
    match found {
        Ok(Some(u)) => if u.email == claims.sub {
            Ok(u)
        } else {
            Err(ApiError::Unauthenticated)
        },
        Ok(None) => Err(ApiError::Unauthenticated),
        Err(_) => Err(ApiError::InternalError),
    }
}

/// Takes the token out of an `Authorization` header value.
pub fn strip_bearer(header: &str) -> (r: Option<&str>)
    ensures
        match r {
            Some(t) => bearer_token(header@) == Some(t@),
            None => bearer_token(header@) is None,
        },
{
    proof {
        reveal_strlit("Bearer ");
    }
    let n = header.unicode_len();
    if n < 7 {
        return None;
    }
    let head = header.substring_char(0, 7);
    let scheme = head.to_owned();
    let wanted = "Bearer ".to_owned();
    if scheme == wanted {
        Some(header.substring_char(7, n))
    } else {
        None
    }
}

/// The guard, at the instant `now`: reads the token from the header value,
/// validates it against `secret` and returns its claims. A missing header,
/// another scheme and a token that does not validate all give
/// `Unauthenticated`.
pub fn extract_claims_at(header: Option<&str>, secret: &str, now: i64) -> (r: Result<Claims, ApiError>)
    ensures
        is_authentication(text_of_str(header), secret@, now, r),
{
    match header {
        None => Err(ApiError::Unauthenticated),
        Some(value) => match strip_bearer(value) {
            None => Err(ApiError::Unauthenticated),
            Some(token) => crate::utils::jwt::extract_claims_at(token, secret, now),
        },
    }
}

/// The guard, at the current instant: the answer is that of
/// `extract_claims_at` at the instant the clock gave, which is not before
/// the epoch.
pub fn extract_claims(header: Option<&str>, secret: &str) -> (r: Result<Claims, ApiError>)
    ensures
        exists|now: i64| 0 <= now && #[trigger] is_authentication(text_of_str(header), secret@, now, r),
{
    let now = utc_now();
    let r = extract_claims_at(header, secret, now);
    assert(is_authentication(text_of_str(header), secret@, now, r));
    r
}

/// Resolves the caller from the claims and what the lookup of the subject
/// returned.
pub fn resolve_caller(claims: &Claims, found: Lookup<User>) -> (r: Result<User, ApiError>)
    ensures
        match r {
            Ok(u) => found == Ok::<Option<User>, crate::error::StoreFailure>(Some(u)) && caller_of(
                claims@,
                lookup_view(found),
            ) == Ok::<UserView, ApiError>(u@),
            Err(e) => caller_of(claims@, lookup_view(found)) == Err::<UserView, ApiError>(e),
        },
{
    match found {
        Err(_) => Err(ApiError::InternalError),
        Ok(None) => Err(ApiError::Unauthenticated),
        Ok(Some(user)) => {
            if user.email == claims.sub {
                Ok(user)
            } else {
                Err(ApiError::Unauthenticated)
            }
        },
    }
}

/// A header that is missing, or whose value does not begin with the bearer
/// prefix, is refused whatever the secret and the instant.
pub proof fn law_guard_refuses_other_schemes(header: Option<Seq<char>>, secret: Seq<char>, now: i64)
    requires
        header is None || !bearer_prefix().is_prefix_of(header->Some_0),
    ensures
        authenticated(header, secret, now) == Err::<ClaimsView, ApiError>(ApiError::Unauthenticated),
{
}

/// A bearer token that does not decode under the secret is refused at
/// every instant.
pub proof fn law_guard_refuses_bad_tokens(header: Seq<char>, secret: Seq<char>, now: i64)
    requires
        bearer_token(header) is Some,
        crate::utils::jwt::jwt_decoded(bearer_token(header)->Some_0, secret) is None,
    ensures
        authenticated(Some(header), secret, now) == Err::<ClaimsView, ApiError>(
            ApiError::Unauthenticated,
        ),
{
}

/// The guard never tells why it refused: whatever is wrong with the
/// header or the token, the error is `Unauthenticated`.
pub proof fn law_guard_refusals_are_alike(header: Option<Seq<char>>, secret: Seq<char>, now: i64)
    requires
        authenticated(header, secret, now) is Err,
    ensures
        authenticated(header, secret, now) == Err::<ClaimsView, ApiError>(ApiError::Unauthenticated),
{
}

} // verus!
