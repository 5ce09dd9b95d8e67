//! Issuance and verification of signed, time-bounded session tokens.
//!
//! A session is stateless: validity is purely a function of the token's
//! signature and expiry at verification time. The expiry boundary is
//! exclusive — a token is live only while `now < exp` — so a token issued
//! with a zero time-to-live is already dead.

use vstd::prelude::*;
use jsonwebtoken::{decode, encode, Algorithm, DecodingKey, EncodingKey, Header, Validation};
use serde_json::Value;
use crate::clock::now_unix;
use crate::error::AppError;

verus! {

/// The identity assertion embedded in a session token. Immutable once
/// constructed; `iat` and `exp` are Unix timestamps in seconds.
#[derive(Debug)]
pub struct Claims {
    pub sub: String,
    pub email: String,
    pub name: String,
    pub exp: i64,
    pub iat: i64,
}

/// The mathematical value of a claim set.
pub ghost struct ClaimsView {
    pub sub: Seq<char>,
    pub email: Seq<char>,
    pub name: Seq<char>,
    pub exp: int,
    pub iat: int,
}

impl View for Claims {
    type V = ClaimsView;

    open spec fn view(&self) -> ClaimsView {
        ClaimsView {
            sub: self.sub@,
            email: self.email@,
            name: self.name@,
            exp: self.exp as int,
            iat: self.iat as int,
        }
    }
}

/// The token that HS256 encoding produces for a claim set under a secret: a
/// pure function of the two, so equal claims under an equal secret give one
/// token.
pub uninterp spec fn jwt_token_of(claims: ClaimsView, secret: Seq<char>) -> Seq<char>;

/// The claim set that HS256 decoding recovers from `token` under `secret`
/// with the time-independent checks only (structure, signature, claim
/// shapes), or `None` where decoding rejects the token. A pure function of
/// token and secret; the clock plays no part in it.
pub uninterp spec fn jwt_payload(token: Seq<char>, secret: Seq<char>) -> Option<ClaimsView>;

/// Whether a token passes full verification at instant `now`: it decodes
/// under the secret and has not yet reached its expiry.
pub open spec fn token_accepted_at(token: Seq<char>, secret: Seq<char>, now: int) -> bool {
    match jwt_payload(token, secret) {
        Some(c) => now < c.exp,
        None => false,
    }
}

/// Relies on `jsonwebtoken::encode` with HS256 over the five claim fields:
/// for an HMAC secret the call cannot fail, its output is a pure function of
/// claims and secret, and the token carries exactly the given claims, so
/// decoding it under the same secret recovers them. Decoding rejects a
/// negative expiry (its claim coercion accepts only non-negative numbers),
/// so non-negative instants are required here.
#[verifier::external_body]
fn jwt_encode(claims: &Claims, secret: &str) -> (r: Result<String, AppError>)
    requires
        0 <= claims.iat,
        0 <= claims.exp,
    ensures
        r is Ok,
        r matches Ok(t) ==> jwt_payload(t@, secret@) == Some(claims@) && t@ == jwt_token_of(
            claims@,
            secret@,
        ),
{
    let mut m = serde_json::Map::new();
    m.insert("sub".to_owned(), Value::String(claims.sub.clone()));
    m.insert("email".to_owned(), Value::String(claims.email.clone()));
    m.insert("name".to_owned(), Value::String(claims.name.clone()));
    m.insert("exp".to_owned(), Value::from(claims.exp));
    m.insert("iat".to_owned(), Value::from(claims.iat));
    let key = EncodingKey::from_secret(secret.as_bytes());
    encode(&Header::default(), &Value::Object(m), &key).map_err(|e| AppError::Jwt(e.to_string()))
}

/// Relies on `jsonwebtoken::decode` with HS256 and expiry validation turned
/// off (expiry is checked separately, against an explicit instant): the
/// outcome — rejection, or the five claim fields — is a pure function of
/// token and secret.
#[verifier::external_body]
fn jwt_decode(token: &str, secret: &str) -> (r: Result<Claims, AppError>)
    ensures
        r is Ok <==> jwt_payload(token@, secret@) is Some,
        r matches Ok(c) ==> Some(c@) == jwt_payload(token@, secret@),
        r matches Err(e) ==> e is Jwt,
{
    let mut v = Validation::new(Algorithm::HS256);
    v.validate_exp = false;
    let d = decode::<Value>(token, &DecodingKey::from_secret(secret.as_bytes()), &v)
        .map_err(|e| AppError::Jwt(e.to_string()))?;
    let er = || AppError::Jwt("missing claim".to_owned());
    Ok(Claims {
        sub: d.claims["sub"].as_str().ok_or_else(er)?.to_owned(),
        email: d.claims["email"].as_str().ok_or_else(er)?.to_owned(),
        name: d.claims["name"].as_str().ok_or_else(er)?.to_owned(),
        exp: d.claims["exp"].as_i64().ok_or_else(er)?,
        iat: d.claims["iat"].as_i64().ok_or_else(er)?,
    })
}

/// Issue a token at instant `now` asserting the given identity, live for
/// `expiration_seconds` from `now`. The call succeeds exactly when the
/// instants are representable — `now` non-negative and the expiry within
/// range — and the token then decodes under `secret` to exactly these
/// claims, the same token for the same arguments.
pub fn generate_token_at(
    user_id: &str,
    email: &str,
    name: &str,
    secret: &str,
    expiration_seconds: i64,
    now: i64,
) -> (r: Result<String, AppError>)
    ensures
        r is Ok <==> (0 <= now && 0 <= now + expiration_seconds <= i64::MAX),
        r matches Ok(t) ==> ({
            let c = ClaimsView {
                sub: user_id@,
                email: email@,
                name: name@,
                exp: now + expiration_seconds,
                iat: now as int,
            };
            jwt_payload(t@, secret@) == Some(c) && t@ == jwt_token_of(c, secret@)
        }),
        r matches Err(e) ==> e is Internal,
{
    if now < 0 {
        return Err(AppError::Internal("token issue instant out of range".to_owned()));
    }
    let exp = match now.checked_add(expiration_seconds) {
        Some(e) => e,
        None => return Err(AppError::Internal("token expiry out of range".to_owned())),
    };
    if exp < 0 {
        return Err(AppError::Internal("token expiry out of range".to_owned()));
    }
    let claims = Claims {
        sub: user_id.to_owned(),
        email: email.to_owned(),
        name: name.to_owned(),
        exp,
        iat: now,
    };
    jwt_encode(&claims, secret)
}

/// Issue a token for the given identity at the current instant. The issue
/// and expiry instants come from the clock, so only their spacing is stated.
pub fn generate_token(
    user_id: &str,
    email: &str,
    name: &str,
    secret: &str,
    expiration_seconds: i64,
) -> (r: Result<String, AppError>)
    ensures
        r matches Ok(t) ==> jwt_payload(t@, secret@) matches Some(c) && c.sub == user_id@
            && c.email == email@ && c.name == name@ && c.exp == c.iat + expiration_seconds
            && 0 <= c.iat,
        r matches Err(e) ==> e is Internal,
{
    let now = now_unix();
    generate_token_at(user_id, email, name, secret, expiration_seconds, now)
}

/// Verify `token` under `secret` at instant `now`: succeed exactly when the
/// token decodes and `now` lies strictly before its expiry, returning the
/// claims it carries. Signature failure, malformed structure and expiry all
/// collapse to the one token-error kind.
pub fn verify_token_at(token: &str, secret: &str, now: i64) -> (r: Result<Claims, AppError>)
    ensures
        r is Ok <==> token_accepted_at(token@, secret@, now as int),
        r matches Ok(c) ==> Some(c@) == jwt_payload(token@, secret@),
        r matches Err(e) ==> e is Jwt,
{
    let claims = match jwt_decode(token, secret) {
        Ok(c) => c,
        Err(e) => return Err(e),
    };
    if now >= claims.exp {
        return Err(AppError::Jwt("expired token".to_owned()));
    }
    Ok(claims)
}

/// Verify `token` under `secret` at the current instant.
pub fn verify_token(token: &str, secret: &str) -> (r: Result<Claims, AppError>)
    ensures
        r matches Ok(c) ==> Some(c@) == jwt_payload(token@, secret@),
        jwt_payload(token@, secret@) is None ==> r is Err,
        r matches Err(e) ==> e is Jwt,
{
    let now = now_unix();
    verify_token_at(token, secret, now)
}

/// Law: the expiry boundary is exclusive. A token whose expiry does not
/// exceed its issue instant — one issued with a zero or negative
/// time-to-live — is rejected at every instant at or after issuance.
pub proof fn lemma_zero_ttl_token_rejected(token: Seq<char>, secret: Seq<char>, now: int)
    requires
        jwt_payload(token, secret) matches Some(c) && c.exp <= c.iat && now >= c.iat,
    ensures
        !token_accepted_at(token, secret, now),
{
}

/// Law: expiry alone decides a decodable token's fate. A token that decodes
/// under the secret is accepted strictly before its expiry and rejected from
/// the expiry instant on.
pub proof fn lemma_expiry_boundary(token: Seq<char>, secret: Seq<char>, now: int)
    requires
        jwt_payload(token, secret) is Some,
    ensures
        jwt_payload(token, secret) matches Some(c) ==> (token_accepted_at(token, secret, now)
            <==> now < c.exp),
{
}

} // verus!
