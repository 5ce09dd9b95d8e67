//! Core of a credential-and-session issuance service: password hashing and
//! verification, signed session-token issuance and verification, a sliding
//! window rate limiter that gates login attempts, and the register / login /
//! OAuth-callback / profile flows that compose them over a user store.

pub mod auth;
pub mod clock;
pub mod config;
pub mod jwt;
pub mod rate_limit;
pub mod store;
pub mod user;
pub mod error;
pub mod hashing;
mod text;

pub use error::AppError;
