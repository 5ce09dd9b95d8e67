//! The authentication flows: register, login, OAuth callback, profile fetch
//! and logout, sequencing the rate-limit gates, credential verification and
//! token issuance over the user store.
//!
//! Outward behaviour never reveals whether an email exists or whether a
//! password or a token was the failure point: a nonexistent account and a
//! wrong password yield the same unauthorized signal.

use vstd::prelude::*;
use crate::clock::{format_timestamp, now_unix, timestamp_text};
use crate::config::JwtConfig;
use crate::error::AppError;
use crate::hashing::{credential_wf, hash_password, password_fits, pwd_matches, verify_password};
use crate::jwt::{generate_token_at, jwt_payload, token_accepted_at, verify_token_at, Claims};
use crate::rate_limit::{admits, retry_after, standing, window_of, RateLimiter};
use crate::store::Store;
use crate::user::User;

verus! {

/// A registration request: the only flow that sees a plaintext password
/// besides login.
#[derive(Debug)]
pub struct RegisterRequest {
    pub email: String,
    pub password: String,
    pub name: String,
}

/// A password-login request.
#[derive(Debug)]
pub struct LoginRequest {
    pub email: String,
    pub password: String,
}

/// What a successful register, login or OAuth callback returns: a bearer
/// token and a summary of the user it asserts.
#[derive(Debug)]
pub struct AuthResponse {
    pub token: String,
    pub user: UserInfo,
}

/// The user summary inside an `AuthResponse`.
#[derive(Debug)]
pub struct UserInfo {
    pub id: String,
    pub email: String,
    pub name: String,
}

/// The profile that the OAuth provider reports for the authorizing user.
#[derive(Debug)]
pub struct GoogleUserInfo {
    pub id: String,
    pub email: String,
    pub name: String,
}

/// The query parameters of the provider's callback redirect.
#[derive(Debug)]
pub struct OAuthCallbackQuery {
    pub code: String,
    pub state: String,
}

/// A profile fetch's payload: every stored field but the credential.
#[derive(Debug)]
pub struct ProfileResponse {
    pub id: String,
    pub email: String,
    pub name: String,
    pub oauth_provider: Option<String>,
    pub created_at: String,
}

/// Whether the address gate of `l` admits an attempt from `ip` at `now`.
pub open spec fn ip_gate_admits(l: RateLimiter, ip: Seq<char>, now: u64) -> bool {
    admits(window_of(l.ip_state(), ip), now, l.max_attempts_per_ip, l.window_seconds)
}

/// Whether the email gate of `l` admits an attempt against `email` at `now`.
pub open spec fn email_gate_admits(l: RateLimiter, email: Seq<char>, now: u64) -> bool {
    admits(window_of(l.email_state(), email), now, l.max_attempts_per_email, l.window_seconds)
}

/// Some stored user has this email and a readable credential that
/// `password` verifies against.
pub open spec fn password_accepted(s: Store, email: Seq<char>, password: Seq<char>) -> bool {
    exists|i: int|
        0 <= i < s.users@.len() && (#[trigger] s.users@[i]).email@ == email && (
        s.users@[i].password_hash matches Some(h) && credential_wf(h@) && pwd_matches(
            password,
            h@,
        ))
}

/// Some stored user has this email and a readable credential that
/// `password` fails against.
pub open spec fn password_rejected(s: Store, email: Seq<char>, password: Seq<char>) -> bool {
    exists|i: int|
        0 <= i < s.users@.len() && (#[trigger] s.users@[i]).email@ == email && (
        s.users@[i].password_hash matches Some(h) && credential_wf(h@) && !pwd_matches(
            password,
            h@,
        ))
}

/// Some stored user has this email and no password credential at all: an
/// account created through an OAuth provider.
pub open spec fn oauth_only_account(s: Store, email: Seq<char>) -> bool {
    exists|i: int|
        0 <= i < s.users@.len() && (#[trigger] s.users@[i]).email@ == email
            && s.users@[i].password_hash is None
}

/// Some stored user has this email and a credential that does not even
/// parse: corrupted storage.
pub open spec fn credential_unreadable(s: Store, email: Seq<char>) -> bool {
    exists|i: int|
        0 <= i < s.users@.len() && (#[trigger] s.users@[i]).email@ == email && (
        s.users@[i].password_hash matches Some(h) && !credential_wf(h@))
}

/// With unique emails, any record with `u`'s email is `u` itself.
proof fn lemma_unique_email_user(s: Store, u: User, email: Seq<char>)
    requires
        s.wf(),
        s.users@.contains(u),
        u.email@ == email,
    ensures
        forall|i: int|
            0 <= i < s.users@.len() && (#[trigger] s.users@[i]).email@ == email ==> s.users@[i]
                == u,
{
    let j = choose|j: int| 0 <= j < s.users@.len() && s.users@[j] == u;
    assert forall|i: int|
        0 <= i < s.users@.len() && (#[trigger] s.users@[i]).email@ == email implies s.users@[i]
        == u by {
        if i != j {
            assert(s.users@[i].email@ != s.users@[j].email@);
        }
    }
}

/// Register a new account at instant `now`: hash the password, create the
/// user — rejected if the email is already known, with no rate limiting on
/// this flow — and issue a token for the fresh identity. Success is owed
/// whenever the email is fresh, the password fits the hash function's input
/// bound, and the instants are representable.
pub fn register_at(store: &mut Store, jwt: &JwtConfig, payload: RegisterRequest, now: i64) -> (r:
    Result<AuthResponse, AppError>)
    ensures
        old(store).wf() ==> final(store).wf(),
        old(store).has_email(payload.email@) ==> r is Err && *final(store) == *old(store),
        old(store).has_email(payload.email@) && password_fits(payload.password@) ==> (
        r matches Err(e) && (e matches AppError::BadRequest(m) && m@ == "Email already exists"@)),
        !password_fits(payload.password@) ==> (r matches Err(e) && e is Internal && *final(store)
            == *old(store)),
        !old(store).has_email(payload.email@) ==> (r is Ok || (r matches Err(e) && e is Internal)),
        !old(store).has_email(payload.email@) && password_fits(payload.password@) && 0 <= now && 0
            <= now + jwt.expiration <= i64::MAX ==> r is Ok,
        r matches Err(e) ==> e is Internal || (e matches AppError::BadRequest(m) && m@
            == "Email already exists"@),
        r matches Err(e) ==> (e is BadRequest ==> old(store).has_email(payload.email@)
            && *final(store) == *old(store)),
        r matches Ok(resp) ==> ({
            let u = final(store).users@.last();
            &&& !old(store).has_email(payload.email@)
            &&& final(store).users@ == old(store).users@.push(u)
            &&& u.email@ == payload.email@
            &&& u.name@ == payload.name@
            &&& (u.password_hash matches Some(h) && credential_wf(h@) && pwd_matches(
                payload.password@,
                h@,
            ))
            &&& resp.user.id@ == u.id@ && resp.user.email@ == u.email@ && resp.user.name@
                == u.name@
            &&& (jwt_payload(resp.token@, jwt.secret@) matches Some(c) && c.sub == resp.user.id@
                && c.email == resp.user.email@ && c.name == resp.user.name@ && c.iat == now
                && c.exp == now + jwt.expiration)
        }),
{
    let password_hash = match hash_password(payload.password.as_str()) {
        Ok(h) => h,
        Err(e) => return Err(e),
    };
    let user = match store.create_user(
        payload.email,
        payload.name,
        Some(password_hash),
        None,
        None,
    ) {
        Ok(u) => u,
        Err(e) => return Err(e),
    };
    let token = match generate_token_at(
        user.id.as_str(),
        user.email.as_str(),
        user.name.as_str(),
        jwt.secret.as_str(),
        jwt.expiration,
        now,
    ) {
        Ok(t) => t,
        Err(e) => return Err(e),
    };
    Ok(AuthResponse { token, user: UserInfo { id: user.id, email: user.email, name: user.name } })
}

/// Register a new account at the current instant. The clock decides the
/// token's instants; `register_at` one call down fixes the outcome for every
/// reading of it.
pub fn register(store: &mut Store, jwt: &JwtConfig, payload: RegisterRequest) -> (r: Result<
    AuthResponse,
    AppError,
>)
    ensures
        old(store).wf() ==> final(store).wf(),
        old(store).has_email(payload.email@) ==> r is Err && *final(store) == *old(store),
        old(store).has_email(payload.email@) && password_fits(payload.password@) ==> (
        r matches Err(e) && (e matches AppError::BadRequest(m) && m@ == "Email already exists"@)),
        !old(store).has_email(payload.email@) ==> (r is Ok || (r matches Err(e) && e is Internal)),
        r matches Err(e) ==> e is Internal || (e matches AppError::BadRequest(m) && m@
            == "Email already exists"@),
        r matches Err(e) ==> (e is BadRequest ==> old(store).has_email(payload.email@)
            && *final(store) == *old(store)),
        r matches Ok(resp) ==> ({
            let u = final(store).users@.last();
            &&& !old(store).has_email(payload.email@)
            &&& final(store).users@ == old(store).users@.push(u)
            &&& u.email@ == payload.email@
            &&& u.name@ == payload.name@
            &&& (u.password_hash matches Some(h) && credential_wf(h@) && pwd_matches(
                payload.password@,
                h@,
            ))
            &&& resp.user.id@ == u.id@ && resp.user.email@ == u.email@ && resp.user.name@
                == u.name@
            &&& (jwt_payload(resp.token@, jwt.secret@) matches Some(c) && c.sub == resp.user.id@
                && c.email == resp.user.email@ && c.name == resp.user.name@ && c.exp == c.iat
                + jwt.expiration)
        }),
{
    let now = now_unix();
    register_at(store, jwt, payload, now)
}

/// The rate-limit phase of a login alone: the address gate, then the email
/// gate, succeeding exactly when both admit; either failing aborts with the
/// retry-after hint, and a keyspace records only what its own check
/// recorded. The boundary runs this under its brief lock, apart from the
/// expensive credential verification.
pub fn login_gate(limiter: &mut RateLimiter, client_ip: &str, email: &str, now: u64) -> (r: Result<
    (),
    AppError,
>)
    requires
        old(limiter).wf(),
    ensures
        final(limiter).wf() && final(limiter).same_config(old(limiter)),
        ({
            let w = old(limiter).window_seconds;
            let ipa = ip_gate_admits(*old(limiter), client_ip@, now);
            let ema = email_gate_admits(*old(limiter), email@, now);
            let ip_standing = standing(old(limiter).ip_state(), client_ip@, now, w);
            let email_standing = standing(old(limiter).email_state(), email@, now, w);
            &&& (r is Ok <==> ipa && ema)
            &&& (r matches Err(e) ==> (e matches AppError::TooManyRequests(s) && s == (
            if !ipa {
                retry_after(ip_standing[0], now, w)
            } else {
                retry_after(email_standing[0], now, w)
            }) && (w >= 1 ==> s >= 1)))
            &&& final(limiter).ip_state() == old(limiter).ip_state().insert(
                client_ip@,
                if ipa {
                    ip_standing.push(now)
                } else {
                    ip_standing
                },
            )
            &&& (!ipa ==> final(limiter).email_state() == old(limiter).email_state())
            &&& (ipa ==> final(limiter).email_state() == old(limiter).email_state().insert(
                email@,
                if ema {
                    email_standing.push(now)
                } else {
                    email_standing
                },
            ))
        }),
{
    if let Err(s) = limiter.check_ip_limit(client_ip, now) {
        return Err(AppError::TooManyRequests(s));
    }
    if let Err(s) = limiter.check_email_limit(email, now) {
        return Err(AppError::TooManyRequests(s));
    }
    Ok(())
}

/// Log an account in: pass the address gate, then the email gate — either
/// failing aborts with the retry-after hint and nothing else recorded — then
/// look the account up and verify the password. A missing account and a
/// wrong password are the same unauthorized signal; an account without a
/// credential is a bad request. Success wipes the email gate's window — the
/// address gate is never reset — and issues a token at `now`.
pub fn login(
    limiter: &mut RateLimiter,
    store: &Store,
    jwt: &JwtConfig,
    client_ip: &str,
    payload: LoginRequest,
    now: u64,
) -> (r: Result<AuthResponse, AppError>)
    requires
        old(limiter).wf(),
        store.wf(),
        now <= i64::MAX as u64,
    ensures
        final(limiter).wf() && final(limiter).same_config(old(limiter)),
        ({
            let w = old(limiter).window_seconds;
            let ipa = ip_gate_admits(*old(limiter), client_ip@, now);
            let ema = email_gate_admits(*old(limiter), payload.email@, now);
            let ip_standing = standing(old(limiter).ip_state(), client_ip@, now, w);
            let email_standing = standing(old(limiter).email_state(), payload.email@, now, w);
            let accepted = password_accepted(*store, payload.email@, payload.password@);
            &&& ((r matches Err(e) && e is TooManyRequests) <==> !(ipa && ema))
            &&& (!(ipa && ema) ==> (r matches Err(e) && (e matches AppError::TooManyRequests(s)
                && s == (if !ipa {
                retry_after(ip_standing[0], now, w)
            } else {
                retry_after(email_standing[0], now, w)
            }) && (w >= 1 ==> s >= 1))))
            &&& final(limiter).ip_state() == old(limiter).ip_state().insert(
                client_ip@,
                if ipa {
                    ip_standing.push(now)
                } else {
                    ip_standing
                },
            )
            &&& (!ipa ==> final(limiter).email_state() == old(limiter).email_state())
            &&& (ipa && !ema ==> final(limiter).email_state() == old(
                limiter,
            ).email_state().insert(payload.email@, email_standing))
            &&& (ipa && ema && accepted ==> final(limiter).email_state() == old(
                limiter,
            ).email_state().insert(payload.email@, email_standing.push(now)).remove(
                payload.email@,
            ))
            &&& (ipa && ema && !accepted ==> final(limiter).email_state() == old(
                limiter,
            ).email_state().insert(payload.email@, email_standing.push(now)))
            &&& (ipa && ema ==> {
                &&& (!store.has_email(payload.email@) ==> (r matches Err(e)
                    && e is Unauthorized))
                &&& (password_rejected(*store, payload.email@, payload.password@) ==> (
                r matches Err(e) && e is Unauthorized))
                &&& (oauth_only_account(*store, payload.email@) ==> (r matches Err(e) && (
                e matches AppError::BadRequest(m) && m@ == "This account uses OAuth login"@)))
                &&& (credential_unreadable(*store, payload.email@) ==> (r matches Err(e)
                    && e is Internal))
                &&& (accepted ==> (r is Ok || (r matches Err(e) && e is Internal)))
                &&& (accepted && 0 <= now + jwt.expiration <= i64::MAX ==> r is Ok)
            })
            &&& (r matches Err(e) ==> e is TooManyRequests || e is Unauthorized || e is BadRequest
                || e is Internal)
            &&& (r matches Ok(resp) ==> {
                &&& ipa && ema && accepted
                &&& (exists|u: User|
                    #[trigger] store.users@.contains(u) && u.email@ == payload.email@
                        && resp.user.id@ == u.id@ && resp.user.email@ == u.email@
                        && resp.user.name@ == u.name@)
                &&& (jwt_payload(resp.token@, jwt.secret@) matches Some(c) && c.sub
                    == resp.user.id@ && c.email == resp.user.email@ && c.name == resp.user.name@
                    && c.iat == now && c.exp == now + jwt.expiration)
            })
        }),
{
    if let Err(e) = login_gate(limiter, client_ip, payload.email.as_str(), now) {
        return Err(e);
    }
    let user = match store.find_user_by_email(payload.email.as_str()) {
        Ok(Some(u)) => u,
        Ok(None) => return Err(AppError::Unauthorized),
        Err(e) => return Err(e),
    };
    proof {
        lemma_unique_email_user(*store, user, payload.email@);
    }
    let cred_ok = match &user.password_hash {
        Some(h) => match verify_password(payload.password.as_str(), h.as_str()) {
            Ok(b) => b,
            Err(e) => return Err(e),
        },
        None => return Err(AppError::BadRequest("This account uses OAuth login".to_owned())),
    };
    if !cred_ok {
        return Err(AppError::Unauthorized);
    }
    limiter.reset_email_limit(payload.email.as_str());
    let token = match generate_token_at(
        user.id.as_str(),
        user.email.as_str(),
        user.name.as_str(),
        jwt.secret.as_str(),
        jwt.expiration,
        now as i64,
    ) {
        Ok(t) => t,
        Err(e) => return Err(e),
    };
    Ok(AuthResponse { token, user: UserInfo { id: user.id, email: user.email, name: user.name } })
}

/// The credential phase of a login alone, once the gates have admitted the
/// attempt: look the account up, verify the password against its stored
/// credential, and issue a token at `now`. The boundary runs this outside
/// any lock — it holds the expensive hash — and wipes the email gate's
/// window itself on success.
pub fn login_attempt(store: &Store, jwt: &JwtConfig, email: &str, password: &str, now: u64) -> (r:
    Result<AuthResponse, AppError>)
    requires
        store.wf(),
        now <= i64::MAX as u64,
    ensures
        !store.has_email(email@) ==> (r matches Err(e) && e is Unauthorized),
        password_rejected(*store, email@, password@) ==> (r matches Err(e) && e is Unauthorized),
        oauth_only_account(*store, email@) ==> (r matches Err(e) && (
        e matches AppError::BadRequest(m) && m@ == "This account uses OAuth login"@)),
        credential_unreadable(*store, email@) ==> (r matches Err(e) && e is Internal),
        password_accepted(*store, email@, password@) ==> (r is Ok || (r matches Err(e)
            && e is Internal)),
        password_accepted(*store, email@, password@) && 0 <= now + jwt.expiration <= i64::MAX
            ==> r is Ok,
        r matches Err(e) ==> e is Unauthorized || e is BadRequest || e is Internal,
        r matches Ok(resp) ==> ({
            &&& password_accepted(*store, email@, password@)
            &&& (exists|u: User|
                #[trigger] store.users@.contains(u) && u.email@ == email@ && resp.user.id@
                    == u.id@ && resp.user.email@ == u.email@ && resp.user.name@ == u.name@)
            &&& (jwt_payload(resp.token@, jwt.secret@) matches Some(c) && c.sub == resp.user.id@
                && c.email == resp.user.email@ && c.name == resp.user.name@ && c.iat == now
                && c.exp == now + jwt.expiration)
        }),
{
    let user = match store.find_user_by_email(email) {
        Ok(Some(u)) => u,
        Ok(None) => return Err(AppError::Unauthorized),
        Err(e) => return Err(e),
    };
    proof {
        lemma_unique_email_user(*store, user, email@);
    }
    let cred_ok = match &user.password_hash {
        Some(h) => match verify_password(password, h.as_str()) {
            Ok(b) => b,
            Err(e) => return Err(e),
        },
        None => return Err(AppError::BadRequest("This account uses OAuth login".to_owned())),
    };
    if !cred_ok {
        return Err(AppError::Unauthorized);
    }
    let token = match generate_token_at(
        user.id.as_str(),
        user.email.as_str(),
        user.name.as_str(),
        jwt.secret.as_str(),
        jwt.expiration,
        now as i64,
    ) {
        Ok(t) => t,
        Err(e) => return Err(e),
    };
    Ok(AuthResponse { token, user: UserInfo { id: user.id, email: user.email, name: user.name } })
}

/// Complete an OAuth login at instant `now` with the profile the provider
/// reported: find the local user by provider identity, create one without a
/// password credential if absent, and issue a token. No rate limiting
/// applies to this flow. Success is owed for a known identity, or for a new
/// identity whose email is still free, whenever the instants are
/// representable.
pub fn google_oauth_callback_at(
    store: &mut Store,
    jwt: &JwtConfig,
    google_user: GoogleUserInfo,
    now: i64,
) -> (r: Result<AuthResponse, AppError>)
    ensures
        old(store).wf() ==> final(store).wf(),
        old(store).has_oauth("google"@, google_user.id@) ==> *final(store) == *old(store),
        old(store).has_oauth("google"@, google_user.id@) && 0 <= now && 0 <= now + jwt.expiration
            <= i64::MAX ==> r is Ok,
        old(store).has_oauth("google"@, google_user.id@) ==> (r is Ok || (r matches Err(e)
            && e is Internal)),
        !old(store).has_oauth("google"@, google_user.id@) && old(store).has_email(
            google_user.email@,
        ) ==> (r matches Err(e) && (e matches AppError::BadRequest(m) && m@
            == "Email already exists"@)),
        !old(store).has_oauth("google"@, google_user.id@) && !old(store).has_email(
            google_user.email@,
        ) && 0 <= now && 0 <= now + jwt.expiration <= i64::MAX ==> r is Ok,
        !old(store).has_oauth("google"@, google_user.id@) && !old(store).has_email(
            google_user.email@,
        ) ==> (r is Ok || (r matches Err(e) && e is Internal)),
        r matches Err(e) ==> e is Internal || (e matches AppError::BadRequest(m) && m@
            == "Email already exists"@),
        r matches Err(e) ==> (e is BadRequest ==> *final(store) == *old(store) && !old(
            store,
        ).has_oauth("google"@, google_user.id@) && old(store).has_email(google_user.email@)),
        r matches Ok(resp) ==> (jwt_payload(resp.token@, jwt.secret@) matches Some(c) && c.sub
            == resp.user.id@ && c.email == resp.user.email@ && c.name == resp.user.name@ && c.iat
            == now && c.exp == now + jwt.expiration),
        r matches Ok(resp) ==> (old(store).has_oauth("google"@, google_user.id@) ==> exists|u: User|
            #[trigger] old(store).users@.contains(u) && crate::store::user_oauth_matches(
                u,
                "google"@,
                google_user.id@,
            ) && resp.user.id@ == u.id@ && resp.user.email@ == u.email@ && resp.user.name@
                == u.name@),
        r matches Ok(resp) ==> (!old(store).has_oauth("google"@, google_user.id@) ==> {
            let u = final(store).users@.last();
            &&& final(store).users@ == old(store).users@.push(u)
            &&& u.email@ == google_user.email@
            &&& u.name@ == google_user.name@
            &&& u.password_hash is None
            &&& (u.oauth_provider matches Some(p) && p@ == "google"@)
            &&& (u.oauth_id matches Some(x) && x@ == google_user.id@)
            &&& resp.user.id@ == u.id@ && resp.user.email@ == u.email@ && resp.user.name@
                == u.name@
        }),
{
    let found = match store.find_user_by_oauth("google", google_user.id.as_str()) {
        Ok(f) => f,
        Err(e) => return Err(e),
    };
    let user = match found {
        Some(u) => u,
        None => match store.create_user(
            google_user.email,
            google_user.name,
            None,
            Some("google".to_owned()),
            Some(google_user.id),
        ) {
            Ok(u) => u,
            Err(e) => return Err(e),
        },
    };
    let token = match generate_token_at(
        user.id.as_str(),
        user.email.as_str(),
        user.name.as_str(),
        jwt.secret.as_str(),
        jwt.expiration,
        now,
    ) {
        Ok(t) => t,
        Err(e) => return Err(e),
    };
    Ok(AuthResponse { token, user: UserInfo { id: user.id, email: user.email, name: user.name } })
}

/// Complete an OAuth login at the current instant. The clock decides the
/// token's instants; `google_oauth_callback_at` one call down fixes the
/// outcome for every reading of it.
pub fn google_oauth_callback(
    store: &mut Store,
    jwt: &JwtConfig,
    google_user: GoogleUserInfo,
) -> (r: Result<AuthResponse, AppError>)
    ensures
        old(store).wf() ==> final(store).wf(),
        old(store).has_oauth("google"@, google_user.id@) ==> *final(store) == *old(store),
        old(store).has_oauth("google"@, google_user.id@) ==> (r is Ok || (r matches Err(e)
            && e is Internal)),
        !old(store).has_oauth("google"@, google_user.id@) && old(store).has_email(
            google_user.email@,
        ) ==> (r matches Err(e) && (e matches AppError::BadRequest(m) && m@
            == "Email already exists"@)),
        !old(store).has_oauth("google"@, google_user.id@) && !old(store).has_email(
            google_user.email@,
        ) ==> (r is Ok || (r matches Err(e) && e is Internal)),
        r matches Err(e) ==> e is Internal || (e matches AppError::BadRequest(m) && m@
            == "Email already exists"@),
        r matches Err(e) ==> (e is BadRequest ==> *final(store) == *old(store) && !old(
            store,
        ).has_oauth("google"@, google_user.id@) && old(store).has_email(google_user.email@)),
        r matches Ok(resp) ==> (jwt_payload(resp.token@, jwt.secret@) matches Some(c) && c.sub
            == resp.user.id@ && c.email == resp.user.email@ && c.name == resp.user.name@ && c.exp
            == c.iat + jwt.expiration),
        r matches Ok(resp) ==> (old(store).has_oauth("google"@, google_user.id@) ==> exists|u: User|
            #[trigger] old(store).users@.contains(u) && crate::store::user_oauth_matches(
                u,
                "google"@,
                google_user.id@,
            ) && resp.user.id@ == u.id@ && resp.user.email@ == u.email@ && resp.user.name@
                == u.name@),
        r matches Ok(resp) ==> (!old(store).has_oauth("google"@, google_user.id@) ==> {
            let u = final(store).users@.last();
            &&& final(store).users@ == old(store).users@.push(u)
            &&& u.email@ == google_user.email@
            &&& u.name@ == google_user.name@
            &&& u.password_hash is None
            &&& (u.oauth_provider matches Some(p) && p@ == "google"@)
            &&& (u.oauth_id matches Some(x) && x@ == google_user.id@)
            &&& resp.user.id@ == u.id@ && resp.user.email@ == u.email@ && resp.user.name@
                == u.name@
        }),
{
    let now = now_unix();
    google_oauth_callback_at(store, jwt, google_user, now)
}

/// The token presented by a bearer header, if the header is well-formed.
pub open spec fn bearer_token(header: Seq<char>) -> Option<Seq<char>> {
    if header.len() >= 7 && header.subrange(0, 7) == "Bearer "@ {
        Some(header.subrange(7, header.len() as int))
    } else {
        None
    }
}

/// Relies on `str::strip_prefix`: the remainder of the header after
/// `"Bearer "`, exactly where the header starts with it.
#[verifier::external_body]
fn strip_bearer(header: &str) -> (r: Option<&str>)
    ensures
        r is Some <==> bearer_token(header@) is Some,
        r matches Some(t) ==> bearer_token(header@) == Some(t@),
{
    header.strip_prefix("Bearer ")
}

/// The bearer-token gate: require a well-formed `Bearer` header whose token
/// verifies at `now`, and hand back the claims it carries. A missing or
/// malformed wrapper is itself an unauthorized signal, not a parsing error.
pub fn authenticate(auth_header: Option<&str>, secret: &str, now: i64) -> (r: Result<
    Claims,
    AppError,
>)
    ensures
        r is Ok <==> (auth_header matches Some(h) && (bearer_token(h@) matches Some(t)
            && token_accepted_at(t, secret@, now as int))),
        r matches Ok(c) ==> (auth_header matches Some(h) && (bearer_token(h@) matches Some(t)
            && Some(c@) == jwt_payload(t, secret@))),
        r matches Err(e) ==> e is Unauthorized || e is Jwt,
        auth_header is None ==> (r matches Err(e) && e is Unauthorized),
        auth_header matches Some(h) && bearer_token(h@) is None ==> (r matches Err(e)
            && e is Unauthorized),
        auth_header matches Some(h) && (bearer_token(h@) matches Some(t) && !token_accepted_at(
            t,
            secret@,
            now as int,
        )) ==> (r matches Err(e) && e is Jwt),
{
    let header = match auth_header {
        Some(h) => h,
        None => return Err(AppError::Unauthorized),
    };
    let token = match strip_bearer(header) {
        Some(t) => t,
        None => return Err(AppError::Unauthorized),
    };
    verify_token_at(token, secret, now)
}

/// Fetch the profile behind a bearer token: authenticate, resolve the
/// subject claim to a stored user, and return every field but the
/// credential, with the creation instant rendered as text.
pub fn get_profile(store: &Store, secret: &str, auth_header: Option<&str>, now: i64) -> (r: Result<
    ProfileResponse,
    AppError,
>)
    ensures
        r is Ok <==> (auth_header matches Some(h) && (bearer_token(h@) matches Some(t)
            && token_accepted_at(t, secret@, now as int) && (jwt_payload(t, secret@) matches Some(
            c,
        ) && store.has_id(c.sub)))),
        r matches Ok(p) ==> (exists|u: User|
            #[trigger] store.users@.contains(u) && p.id@ == u.id@ && p.email@ == u.email@
                && p.name@ == u.name@ && p.oauth_provider == u.oauth_provider && p.created_at@
                == timestamp_text(u.created_at)),
        r matches Ok(p) ==> (auth_header matches Some(h) && (bearer_token(h@) matches Some(t) && (
        jwt_payload(t, secret@) matches Some(c) && c.sub == p.id@))),
        r matches Err(e) ==> e is Unauthorized || e is Jwt || e is NotFound,
        auth_header is None ==> (r matches Err(e) && e is Unauthorized),
        auth_header matches Some(h) && bearer_token(h@) is None ==> (r matches Err(e)
            && e is Unauthorized),
        auth_header matches Some(h) && (bearer_token(h@) matches Some(t) && !token_accepted_at(
            t,
            secret@,
            now as int,
        )) ==> (r matches Err(e) && e is Jwt),
        auth_header matches Some(h) && (bearer_token(h@) matches Some(t) && token_accepted_at(
            t,
            secret@,
            now as int,
        ) && (jwt_payload(t, secret@) matches Some(c) && !store.has_id(c.sub))) ==> (
        r matches Err(e) && e is NotFound),
{
    let claims = match authenticate(auth_header, secret, now) {
        Ok(c) => c,
        Err(e) => return Err(e),
    };
    let user = match store.find_user_by_id(claims.sub.as_str()) {
        Ok(Some(u)) => u,
        Ok(None) => return Err(AppError::NotFound),
        Err(_) => return Err(AppError::NotFound),
    };
    Ok(
        ProfileResponse {
            id: user.id,
            email: user.email,
            name: user.name,
            oauth_provider: user.oauth_provider,
            created_at: format_timestamp(user.created_at),
        },
    )
}

/// Logout is a pure client-side token-discard signal: sessions are
/// stateless, so there is nothing to invalidate on the server, and the
/// message is all this returns.
pub fn logout() -> (r: String)
    ensures
        r@ == "Logged out successfully"@,
{
    "Logged out successfully".to_owned()
}

} // verus!
