//! Configuration of the service, as plain values. The boundary reads these
//! from its environment; the core only consumes them.

use vstd::prelude::*;

verus! {

/// Where the server listens.
#[derive(Debug)]
pub struct ServerConfig {
    pub host: String,
    pub port: u16,
}

/// How the user store connects to its backing database.
#[derive(Debug)]
pub struct DatabaseConfig {
    pub url: String,
    pub max_connections: u32,
}

/// The token-signing secret and the lifetime, in seconds, of issued tokens.
/// The lifetime is the sole control over a session's exposure window:
/// sessions are stateless and cannot be revoked early.
#[derive(Debug)]
pub struct JwtConfig {
    pub secret: String,
    pub expiration: i64,
}

/// The OAuth provider endpoints and client credentials.
#[derive(Debug)]
pub struct GoogleOAuthConfig {
    pub client_id: String,
    pub client_secret: String,
    pub redirect_url: String,
    pub auth_url: String,
    pub token_url: String,
}

/// Everything the service is configured with.
#[derive(Debug)]
pub struct AppConfig {
    pub server: ServerConfig,
    pub database: DatabaseConfig,
    pub jwt: JwtConfig,
    pub google_oauth: GoogleOAuthConfig,
}

} // verus!
