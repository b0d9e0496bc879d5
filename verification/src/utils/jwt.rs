use crate::error::{or_internal_error, ApiError};
use vstd::prelude::*;

verus! {

/// How long a token stays valid after it was issued, in seconds.
pub const TOKEN_LIFETIME_SECONDS: i64 = 86400;

/// The payload of an identity token: the subject (the user's email) and the
/// instant, in seconds since the epoch, at which the token expires. A token
/// carries no role.
#[derive(Clone, Debug, PartialEq, Eq)]
pub struct Claims {
    pub sub: String,
    pub exp: usize,
}

/// What a `Claims` holds.
pub ghost struct ClaimsView {
    pub sub: Seq<char>,
    pub exp: usize,
}

impl View for Claims {
    type V = ClaimsView;

    open spec fn view(&self) -> ClaimsView {
        ClaimsView { sub: self.sub@, exp: self.exp }
    }
}

/// The error type of the jsonwebtoken crate.
#[verifier::external_type_specification]
#[verifier::external_body]
pub struct ExJwtError(jsonwebtoken::errors::Error);

/// The token that `jsonwebtoken::encode` builds with the default header
/// (HS256) for the payload `{sub, exp}` under `secret`.
pub uninterp spec fn jwt_signed(sub: Seq<char>, exp: usize, secret: Seq<char>) -> Seq<char>;

/// The subject and expiry that `jsonwebtoken::decode` reads from `token`
/// under `secret` with the default validation except the comparison of the
/// expiry with the clock; `None` where the token is malformed, its signature
/// does not fit the secret, or its payload lacks a textual `sub` or a whole,
/// non-negative `exp`.
pub uninterp spec fn jwt_decoded(token: Seq<char>, secret: Seq<char>) -> Option<(Seq<char>, usize)>;

/// Calls `chrono::Utc::now` and returns its `timestamp`: the seconds since
/// the epoch. The crate reads the time as a duration since the epoch, so
/// the value is not negative; nothing else is claimed of it. The call
/// takes the system clock to stand at or after the epoch.
#[verifier::external_body]
pub(crate) fn utc_now() -> (r: i64)
    ensures
        0 <= r,
{
    chrono::Utc::now().timestamp()
}

/// Calls `jsonwebtoken::encode` with the default header and an HMAC key made
/// of `secret`, on a JSON object with the two members `sub` and `exp`. The
/// token depends on the three arguments alone and is named `jwt_signed`.
/// With an HMAC key the crate's signing has no failing path, and a JSON
/// object of a text and a whole number always serialises, so the contract
/// claims success. It also claims what the crate's documentation shows of
/// a token it has signed: decoding it under the same secret gives the
/// payload back.
#[verifier::external_body]
fn sign_claims(sub: &str, exp: usize, secret: &str) -> (r: Result<String, jsonwebtoken::errors::Error>)
    ensures
        r is Ok,
        r->Ok_0@ == jwt_signed(sub@, exp, secret@),
        jwt_decoded(r->Ok_0@, secret@) == Some((sub@, exp)),
{
    let mut payload = serde_json::Map::new();
    payload.insert("sub".to_string(), serde_json::Value::from(sub));
    payload.insert("exp".to_string(), serde_json::Value::from(exp));
    let key = jsonwebtoken::EncodingKey::from_secret(secret.as_bytes());
    jsonwebtoken::encode(&jsonwebtoken::Header::default(), &payload, &key)
}

/// Calls `jsonwebtoken::decode` with an HMAC key made of `secret` and the
/// default validation, in which only the comparison of `exp` with the
/// system clock is switched off, and moves the members `sub` and `exp` of
/// the decoded payload into a `Claims`. The answer depends on the two
/// strings alone and is named `jwt_decoded`.
#[verifier::external_body]
fn decode_claims(token: &str, secret: &str) -> (r: Option<Claims>)
    ensures
        match r {
            Some(c) => jwt_decoded(token@, secret@) == Some((c.sub@, c.exp)),
            None => jwt_decoded(token@, secret@) is None,
        },
{
    let mut rules = jsonwebtoken::Validation::default();
    rules.validate_exp = false;
    let key = jsonwebtoken::DecodingKey::from_secret(secret.as_bytes());
    let data = jsonwebtoken::decode::<serde_json::Value>(token, &key, &rules).ok()?;
    let sub = data.claims.get("sub")?.as_str()?.to_string();
    let exp = usize::try_from(data.claims.get("exp")?.as_u64()?).ok()?;
    Some(Claims { sub, exp })
}

/// The expiry of a token issued at `now`: a day later, where that instant
/// can be written into a token.
pub open spec fn token_expiry(now: i64) -> Option<usize> {
    if 0 <= now + TOKEN_LIFETIME_SECONDS <= usize::MAX {
        Some((now + TOKEN_LIFETIME_SECONDS) as usize)
    } else {
        None
    }
}

/// The token issued to `sub` at `now` under `secret`: there is one
/// exactly where the expiry can be written.
pub open spec fn issued(sub: Seq<char>, secret: Seq<char>, now: i64) -> Option<Seq<char>> {
    match token_expiry(now) {
        Some(exp) => Some(jwt_signed(sub, exp, secret)),
        None => None,
    }
}

/// What validation answers for `token` at `now`: the claims, where the
/// token is well formed, signed with `secret` and expires after `now`; in
/// every other case the one error `Unauthenticated`, whatever went wrong.
pub open spec fn validated(token: Seq<char>, secret: Seq<char>, now: i64) -> Result<ClaimsView, ApiError> {
    match jwt_decoded(token, secret) {
        Some((sub, exp)) => if exp > now {
            Ok(ClaimsView { sub, exp })
        } else {
            Err(ApiError::Unauthenticated)
        },
        None => Err(ApiError::Unauthenticated),
    }
}

/// Whether `r` is what issuing a token to `sub` at `now` under `secret`
/// answers: the token named by `issued`, which decodes under the same
/// secret to `sub` and the expiry; `InternalError` exactly where there is
/// no such token.
pub open spec fn is_issuance(sub: Seq<char>, secret: Seq<char>, now: i64, r: Result<String, ApiError>) -> bool {
    match r {
        Ok(token) => issued(sub, secret, now) == Some(token@) && jwt_decoded(token@, secret)
            == Some((sub, token_expiry(now)->Some_0)),
        Err(e) => e == ApiError::InternalError && issued(sub, secret, now) is None,
    }
}

/// Whether `r` is what validating `token` at `now` under `secret` answers.
pub open spec fn is_validation(token: Seq<char>, secret: Seq<char>, now: i64, r: Result<Claims, ApiError>) -> bool {
    match r {
        Ok(c) => validated(token, secret, now) == Ok::<ClaimsView, ApiError>(c@),
        Err(e) => validated(token, secret, now) == Err::<ClaimsView, ApiError>(e),
    }
}

/// The expiry of a token issued at `now`, or `None` where it cannot be
/// written into a token.
pub fn expiry_after(now: i64) -> (r: Option<usize>)
    ensures
        r == token_expiry(now),
{
    if now < -TOKEN_LIFETIME_SECONDS {
        return None;
    }
    let exp: u64 = if now < 0 {
        (now + TOKEN_LIFETIME_SECONDS) as u64
    } else {
        now as u64 + TOKEN_LIFETIME_SECONDS as u64
    };
    match usize::try_from(exp) {
        Ok(e) => Some(e),
        Err(_) => None,
    }
}

/// Issues a token for `sub` at the instant `now`, in seconds since the
/// epoch, signed with `secret` and valid for a day.
///
/// A token that was issued validates under the same secret to its subject
/// at every instant before its expiry, and is refused from the expiry on.
pub fn create_jwt_at(sub: &str, secret: &str, now: i64) -> (r: Result<String, ApiError>)
    ensures
        is_issuance(sub@, secret@, now, r),
        r is Ok ==> forall|at: i64|
            #[trigger] validated(r->Ok_0@, secret@, at) == if at < now + TOKEN_LIFETIME_SECONDS {
                Ok::<ClaimsView, ApiError>(
                    (ClaimsView { sub: sub@, exp: (now + TOKEN_LIFETIME_SECONDS) as usize }),
                )
            } else {
                Err::<ClaimsView, ApiError>(ApiError::Unauthenticated)
            },
{
    match expiry_after(now) {
        None => Err(ApiError::InternalError),
        Some(exp) => or_internal_error(sign_claims(sub, exp, secret)),
    }
}

/// Issues a token for `sub` at the current instant: the answer is that of
/// `create_jwt_at` at the instant the clock gave, which is not before the
/// epoch. So a token is owed wherever the expiry a day from then can be
/// written.
pub fn create_jwt(sub: &str, secret: &str) -> (r: Result<String, ApiError>)
    ensures
        exists|now: i64| 0 <= now && #[trigger] is_issuance(sub@, secret@, now, r),
{
    let now = utc_now();
    let r = create_jwt_at(sub, secret, now);
    assert(is_issuance(sub@, secret@, now, r));
    r
}

/// Whether a token that expires at `exp` is still valid at `now`.
pub fn expires_after(exp: usize, now: i64) -> (r: bool)
    ensures
        r == (exp > now),
{
    if now < 0 {
        true
    } else {
        (now as u64) < (exp as u64)
    }
}

/// Judges the claims that a token decoded to, at the instant `now`: they
/// stand if they expire after `now`. A token that did not decode and one
/// that has expired are the same `Unauthenticated`.
pub fn validate_claims(decoded: Option<Claims>, now: i64) -> (r: Result<Claims, ApiError>)
    ensures
        r == match decoded {
            Some(claims) => if claims.exp > now {
                Ok::<Claims, ApiError>(claims)
            } else {
                Err::<Claims, ApiError>(ApiError::Unauthenticated)
            },
            None => Err::<Claims, ApiError>(ApiError::Unauthenticated),
        },
{
    match decoded {
        None => Err(ApiError::Unauthenticated),
        Some(claims) => {
            if expires_after(claims.exp, now) {
                Ok(claims)
            } else {
                Err(ApiError::Unauthenticated)
            }
        },
    }
}

/// Validates `token` against `secret` at the instant `now`, in seconds
/// since the epoch, and returns its claims. Every failure, whether of form, of signature or of expiry, is
/// the same `Unauthenticated`.
pub fn extract_claims_at(token: &str, secret: &str, now: i64) -> (r: Result<Claims, ApiError>)
    ensures
        is_validation(token@, secret@, now, r),
{
    validate_claims(decode_claims(token, secret), now)
}

/// Validates `token` against `secret` at the current instant: the answer
/// is that of `extract_claims_at` at the instant the clock gave, which is
/// not before the epoch.
pub fn extract_claims(token: &str, secret: &str) -> (r: Result<Claims, ApiError>)
    ensures
        exists|now: i64| 0 <= now && #[trigger] is_validation(token@, secret@, now, r),
{
    let now = utc_now();
    let r = extract_claims_at(token, secret, now);
    assert(is_validation(token@, secret@, now, r));
    r
}

} // verus!
