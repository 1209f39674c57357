//! Default settings and fixed names.

use vstd::prelude::*;

verus! {

/// How long a session lives unless configured otherwise: thirty days.
pub const SESSION_EXPIRATION_SECONDS_DEFAULT: usize = 2592000;

/// How long an access token lives unless configured otherwise: fifteen
/// minutes.
pub const ACCESS_TOKEN_EXPIRATION_SECONDS_DEFAULT: usize = 900;

/// Size of the database connection pool unless configured otherwise.
pub const POSTGRESDB_MAX_CONNECTIONS_DEFAULT: usize = 10;

/// Strict transport security is off unless enabled.
pub const USE_HSTS_DEFAULT: bool = false;

/// No allowed CORS origins unless configured, which admits any origin.
pub const CORS_ORIGINS_COMMA_SEPARATED_DEFAULT: &'static str = "";

/// Capacity of the channel that carries requests to a transaction's task.
pub const CHANNEL_BUFFER_SIZE_DEFAULT: usize = 32;

/// Name of the cookie that carries a browser's session.
pub const SESSION_COOKIE_NAME: &'static str = "session_id";

/// Name of the header that carries a non-browser client's session.
pub const SESSION_HEADER_NAME: &'static str = "x-session-id";

} // verus!
