//! Settings the server reads at start.
use vstd::prelude::*;

verus! {

/// Where the database is, and the secret that signs credentials.
#[derive(Debug)]
pub struct AppConfig {
    pub database_url: String,
    pub jwt_secret: String,
}

} // verus!
