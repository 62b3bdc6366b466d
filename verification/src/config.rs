//! The process-wide configuration the service is started with, read once at
//! startup and read-only afterwards.

use vstd::prelude::*;

verus! {

/// Where and as whom the database is reached.
pub struct PGConfig {
    pub host: String,
    pub db: String,
    pub username: String,
    pub password: String,
}

/// How session tokens are signed and how long they live.
pub struct JWTConfig {
    pub secret: String,
    pub expires: i64,
}

} // verus!
