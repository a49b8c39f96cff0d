use vstd::prelude::*;
use crate::text::join2;

verus! {

/// Connections of the store's pool, for monitoring.
#[derive(Debug, Clone, Copy, PartialEq, Eq, Structural)]
pub struct PoolStatus {
    pub total_connections: u32,
    pub idle_connections: u32,
    pub max_size: u32,
}

/// How busy the pool is.
#[derive(Debug, Clone, Copy, PartialEq, Eq, Structural)]
pub enum PoolUsage {
    /// Under seventy percent of the connections in use.
    Normal,
    /// Seventy percent or more.
    Elevated,
    /// Eighty percent or more.
    High,
}

/// Share of the pool in use at which usage counts as elevated, in percent.
pub const POOL_ELEVATED_PERCENT: u64 = 70;

/// Share of the pool in use at which usage counts as high, in percent.
pub const POOL_HIGH_PERCENT: u64 = 80;

/// The usage level of `total` connections out of `max`.
pub open spec fn usage_level_of(total: int, max: int) -> PoolUsage {
    if total * 100 >= POOL_HIGH_PERCENT * max {
        PoolUsage::High
    } else if total * 100 >= POOL_ELEVATED_PERCENT * max {
        PoolUsage::Elevated
    } else {
        PoolUsage::Normal
    }
}

impl PoolStatus {
    /// How busy the pool is, measured against `max_connections`.
    pub fn usage_level(&self, max_connections: u32) -> (r: PoolUsage)
        ensures
            r == usage_level_of(self.total_connections as int, max_connections as int),
    {
        let used = self.total_connections as u64 * 100;
        if used >= POOL_HIGH_PERCENT * max_connections as u64 {
            PoolUsage::High
        } else if used >= POOL_ELEVATED_PERCENT * max_connections as u64 {
            PoolUsage::Elevated
        } else {
            PoolUsage::Normal
        }
    }
}

/// The service's liveness report.
#[derive(Debug, Clone)]
pub struct HealthResponse {
    pub success: bool,
    pub status: String,
    pub message: String,
    pub timestamp: String,
    pub version: String,
}

impl HealthResponse {
    /// The report of a running service.
    pub fn healthy(timestamp: String, version: String) -> (r: HealthResponse)
        ensures
            r.success,
            r.status@ == "healthy"@,
            r.message@ == "Putaway backend is running"@,
            r.timestamp == timestamp,
            r.version == version,
    {
        HealthResponse {
            success: true,
            status: String::from_str("healthy"),
            message: String::from_str("Putaway backend is running"),
            timestamp,
            version,
        }
    }
}

/// Which database the service is working against.
#[derive(Debug, Clone)]
pub struct DatabaseStatusResponse {
    pub success: bool,
    pub database: String,
    pub timestamp: String,
}

/// The report on what sign-in depends on.
#[derive(Debug, Clone)]
pub struct AuthHealthResponse {
    pub success: bool,
    pub status: String,
    pub message: String,
    pub primary_database: String,
    pub tbl_user_exists: bool,
    pub ldap_enabled: bool,
    pub issues: Vec<String>,
    pub timestamp: String,
}

pub open spec fn missing_user_table_issue() -> Seq<char> {
    "Authentication table 'tbl_user' not found in database"@
}

pub open spec fn check_failed_issue(reason: Seq<char>) -> Seq<char> {
    "Failed to check authentication table: "@ + reason
}

impl AuthHealthResponse {
    /// The report, given the outcome of looking for the user table: whether
    /// it exists, or why the lookup failed. Any issue makes the report
    /// degraded.
    pub fn assess(
        primary_database: String,
        user_table: Result<bool, String>,
        ldap_enabled: bool,
        timestamp: String,
    ) -> (r: AuthHealthResponse)
        ensures
            r.tbl_user_exists == (user_table == Ok::<bool, String>(true)),
            user_table == Ok::<bool, String>(true) ==> r.issues@.len() == 0,
            user_table == Ok::<bool, String>(false) ==> r.issues@.len() == 1 && r.issues@[0]@
                == missing_user_table_issue(),
            user_table matches Err(reason) ==> (r.issues@.len() == 1 && r.issues@[0]@ == check_failed_issue(
                reason@,
            )),
            r.success == (r.issues@.len() == 0),
            r.status@ == (if r.issues@.len() == 0 {
                "healthy"@
            } else {
                "degraded"@
            }),
            r.message@ == (if r.issues@.len() == 0 {
                "All authentication dependencies are available"@
            } else {
                "Authentication service has configuration issues"@
            }),
            r.primary_database == primary_database,
            r.ldap_enabled == ldap_enabled,
            r.timestamp == timestamp,
    {
        let mut issues: Vec<String> = Vec::new();
        let tbl_user_exists = match &user_table {
            Ok(exists) => {
                if !*exists {
                    issues.push(String::from_str("Authentication table 'tbl_user' not found in database"));
                }
                *exists
            },
            Err(reason) => {
                issues.push(join2("Failed to check authentication table: ", reason.as_str()));
                false
            },
        };
        let healthy = issues.len() == 0;
        AuthHealthResponse {
            success: healthy,
            status: String::from_str(
                if healthy {
                    "healthy"
                } else {
                    "degraded"
                },
            ),
            message: String::from_str(
                if healthy {
                    "All authentication dependencies are available"
                } else {
                    "Authentication service has configuration issues"
                },
            ),
            primary_database,
            tbl_user_exists,
            ldap_enabled,
            issues,
            timestamp,
        }
    }
}

} // verus!
