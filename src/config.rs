use vstd::prelude::*;

verus! {

/// Where and how to reach the inventory store.
#[derive(Debug, Clone)]
pub struct DatabaseConfig {
    pub server: String,
    pub database: String,
    pub username: String,
    pub password: String,
    pub port: u16,
}

/// Directory service settings for sign-in.
#[derive(Debug, Clone)]
pub struct LdapConfig {
    pub url: String,
    pub base_dn: String,
    pub enabled: bool,
    pub use_ssl: bool,
    pub skip_verify: bool,
}

/// A sign-in attempt.
#[derive(Debug, Clone)]
pub struct LoginRequest {
    pub username: String,
    pub password: String,
}

/// What a scanned code was taken to be.
#[derive(Debug, Clone, Copy, PartialEq, Eq, Structural)]
pub enum ScanType {
    Item,
    Location,
    Lot,
}

} // verus!
