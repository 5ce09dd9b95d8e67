//! One-way password hashing and constant-time verification, built on Argon2id.
//!
//! A credential is a PHC-format string that self-encodes algorithm, version,
//! cost parameters, salt and digest, so verification needs no external
//! parameter lookup and past credentials stay verifiable after a cost change.

use vstd::prelude::*;
use vstd::utf8::encode_utf8;
use crate::error::AppError;

verus! {

/// Memory cost in KiB of a fresh credential: 19 MiB, the recommended lower
/// bound for interactive logins.
pub const ARGON2_M_COST: u32 = 19456;

/// Iteration count of a fresh credential.
pub const ARGON2_T_COST: u32 = 2;

/// Degree of parallelism of a fresh credential.
pub const ARGON2_P_COST: u32 = 1;

/// The cost parameters Argon2 accepts: at least the minimum memory, memory
/// enough for the lanes, at least one iteration, and a parallelism degree in
/// the algorithm's range.
pub open spec fn argon2_params_valid(m_cost: u32, t_cost: u32, p_cost: u32) -> bool {
    &&& m_cost >= 8
    &&& m_cost >= 8 * p_cost
    &&& t_cost >= 1
    &&& 1 <= p_cost <= 0xFFFFFF
}

/// Whether a password fits Argon2's input bound: its UTF-8 form is at most
/// 2^32 - 1 bytes.
pub open spec fn password_fits(password: Seq<char>) -> bool {
    encode_utf8(password).len() <= 0xFFFF_FFFF
}

/// Whether Argon2 verification of `password` against the PHC credential
/// string `credential` succeeds: a pure function of the two, because the
/// parameters are re-read from the credential itself.
pub uninterp spec fn pwd_matches(password: Seq<char>, credential: Seq<char>) -> bool;

/// Whether `credential` parses as a PHC-format password-hash string.
pub uninterp spec fn credential_wf(credential: Seq<char>) -> bool;

/// The memory, iteration and parallelism costs that a PHC credential string
/// self-encodes: a pure projection of the string.
pub uninterp spec fn credential_cost(credential: Seq<char>) -> (u32, u32, u32);

/// Relies on `argon2::Params::new` and `argon2::Argon2::hash_password`
/// (Argon2id, version 0x13) with a fresh random salt from the operating
/// system: the call succeeds exactly when the parameters are valid and the
/// password fits the input bound, and the returned PHC string then parses
/// back, self-encodes these cost parameters, and verifies the hashed
/// password. The string itself varies with the salt, so no more is stated of
/// it. The parallelism bound keeps `Params::new`'s unchecked `p_cost * 8`
/// from overflowing.
#[verifier::external_body]
fn argon2_hash(password: &str, m_cost: u32, t_cost: u32, p_cost: u32) -> (r: Result<
    String,
    AppError,
>)
    requires
        p_cost < 0x2000_0000,
    ensures
        r is Ok <==> (argon2_params_valid(m_cost, t_cost, p_cost) && password_fits(password@)),
        r matches Ok(c) ==> credential_wf(c@) && pwd_matches(password@, c@) && (credential_cost(
            c@,
        ) == (m_cost, t_cost, p_cost)),
        r matches Err(e) ==> e is Internal,
{
    let params = match argon2::Params::new(m_cost, t_cost, p_cost, None) {
        Ok(p) => p,
        Err(e) => return Err(AppError::Internal(format!("Password hashing failed: {}", e))),
    };
    let hasher = argon2::Argon2::new(argon2::Algorithm::Argon2id, argon2::Version::V0x13, params);
    let salt = argon2::password_hash::SaltString::generate(
        &mut argon2::password_hash::rand_core::OsRng,
    );
    match argon2::password_hash::PasswordHasher::hash_password(&hasher, password.as_bytes(), &salt)
    {
        Ok(h) => Ok(h.to_string()),
        Err(e) => Err(AppError::Internal(format!("Password hashing failed: {}", e))),
    }
}

/// Relies on `argon2::password_hash::PasswordHash::new` and
/// `argon2::Argon2::verify_password`: parsing fails exactly on a structurally
/// invalid credential, and verification re-derives the hash with the
/// algorithm, version, parameters and salt embedded in the credential and
/// compares digests in constant time — a pure function of password and
/// credential, so the hasher's own parameters do not matter here. A parsed
/// parallelism of 2^29 or more is screened off before the dependency's
/// unchecked `p_cost * 8` could reach it, and rejected as an error in every
/// build; Argon2 itself accepts no parallelism above 2^24 - 1.
#[verifier::external_body]
fn argon2_verify(password: &str, credential: &str) -> (r: Result<bool, AppError>)
    ensures
        r is Ok <==> credential_wf(credential@),
        r matches Ok(b) ==> b == pwd_matches(password@, credential@),
        r matches Err(e) ==> e is Internal,
{
    let parsed = match argon2::password_hash::PasswordHash::new(credential) {
        Ok(p) => p,
        Err(e) => return Err(AppError::Internal(format!("Password hash parsing failed: {}", e))),
    };
    if parsed.params.get_decimal("p").map_or(false, |p| p >= 0x2000_0000) {
        return Err(AppError::Internal("Password hash parsing failed: invalid params".to_owned()));
    }
    let hasher = argon2::Argon2::default();
    Ok(
        argon2::password_hash::PasswordVerifier::verify_password(
            &hasher,
            password.as_bytes(),
            &parsed,
        ).is_ok(),
    )
}

/// Derive a credential for `password` with the fixed interactive-login cost
/// parameters and a fresh random salt. Succeeds for every password within
/// Argon2's input bound — never failing on the content of the password — and
/// the credential self-encodes exactly the fixed costs.
pub fn hash_password(password: &str) -> (r: Result<String, AppError>)
    ensures
        r is Ok <==> password_fits(password@),
        r matches Ok(c) ==> credential_wf(c@) && pwd_matches(password@, c@) && credential_cost(c@)
            == (ARGON2_M_COST, ARGON2_T_COST, ARGON2_P_COST),
        r matches Err(e) ==> e is Internal,
{
    argon2_hash(password, ARGON2_M_COST, ARGON2_T_COST, ARGON2_P_COST)
}

/// Derive a credential for `password` with explicit cost parameters,
/// succeeding exactly when Argon2 accepts them and the password fits. The
/// credential self-encodes the parameters, so it verifies like any other.
pub fn hash_password_with_params(password: &str, m_cost: u32, t_cost: u32, p_cost: u32) -> (r:
    Result<String, AppError>)
    ensures
        r is Ok <==> argon2_params_valid(m_cost, t_cost, p_cost) && password_fits(password@),
        r matches Ok(c) ==> credential_wf(c@) && pwd_matches(password@, c@) && credential_cost(c@)
            == (m_cost, t_cost, p_cost),
        r matches Err(e) ==> e is Internal,
{
    if p_cost > 0xFFFFFF {
        return Err(AppError::Internal("invalid hashing parameters".to_owned()));
    }
    argon2_hash(password, m_cost, t_cost, p_cost)
}

/// Check `password` against a stored credential. A wrong password yields
/// `Ok(false)`; only a structurally unparsable credential is an error.
pub fn verify_password(password: &str, password_hash: &str) -> (r: Result<bool, AppError>)
    ensures
        r is Ok <==> credential_wf(password_hash@),
        r matches Ok(b) ==> b == pwd_matches(password@, password_hash@),
        r matches Err(e) ==> e is Internal,
{
    argon2_verify(password, password_hash)
}

/// Law: a password verifies against a credential freshly derived from it.
/// Hashing succeeds exactly when the parameters are valid and the password
/// fits, and verifying the same password against the returned credential
/// then succeeds and yields exactly `true`.
pub fn fresh_credential_verifies(password: &str, m_cost: u32, t_cost: u32, p_cost: u32) -> (r:
    Result<bool, AppError>)
    ensures
        r is Ok <==> argon2_params_valid(m_cost, t_cost, p_cost) && password_fits(password@),
        r matches Ok(b) ==> b,
        r matches Err(e) ==> e is Internal,
{
    let credential = match hash_password_with_params(password, m_cost, t_cost, p_cost) {
        Ok(c) => c,
        Err(e) => return Err(e),
    };
    verify_password(password, credential.as_str())
}

} // verus!
