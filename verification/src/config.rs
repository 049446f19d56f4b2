//! Configuration data for the backup process: one entry per scheduled job,
//! plus the settings shared by every job (backup directory, retention window).
use vstd::prelude::*;

verus! {

/// The kind of data store a job backs up.
#[derive(Clone, Copy, Debug, PartialEq, Eq, Structural)]
pub enum ServiceType {
    Postgres,
    Redis,
}

impl ServiceType {
    /// The lower-case kind name, used as the leading segment of artifact file names.
    pub open spec fn kind_prefix(self) -> Seq<char> {
        match self {
            ServiceType::Postgres => "postgres"@,
            ServiceType::Redis => "redis"@,
        }
    }

    /// The lower-case kind name as a string slice.
    pub fn kind_name(&self) -> (r: &'static str)
        ensures
            r@ == self.kind_prefix(),
    {
        match self {
            ServiceType::Postgres => "postgres",
            ServiceType::Redis => "redis",
        }
    }

    /// The kind a configuration tag names: exactly `postgres` or `redis`,
    /// anything else is unrecognized.
    pub fn from_tag(tag: &str) -> (r: Option<ServiceType>)
        ensures
            tag@ == "postgres"@ ==> r == Some(ServiceType::Postgres),
            tag@ == "redis"@ ==> r == Some(ServiceType::Redis),
            tag@ != "postgres"@ && tag@ != "redis"@ ==> r is None,
    {
        proof {
            reveal_strlit("postgres");
            reveal_strlit("redis");
            assert("postgres"@.len() == 8 && "redis"@.len() == 5);
        }
        if crate::naming::str_eq(tag, "postgres") {
            Some(ServiceType::Postgres)
        } else if crate::naming::str_eq(tag, "redis") {
            Some(ServiceType::Redis)
        } else {
            None
        }
    }
}

/// How often one job runs. The timer is a fixed period; `timezone` and
/// `start_time` are carried through for the surrounding process.
#[derive(Clone, Debug)]
pub struct ScheduleConfig {
    pub interval_seconds: u64,
    pub timezone: Option<String>,
    pub start_time: Option<String>,
}

/// Connection parameters for a relational store, with secrets already resolved.
#[derive(Clone, Debug)]
pub struct PostgresConnectionConfig {
    pub service_type: ServiceType,
    pub host: String,
    pub port: u16,
    pub username: String,
    pub password: String,
    pub database: String,
    pub schema: Option<String>,
    pub ssl_mode: Option<String>,
    pub connection_timeout: Option<u64>,
}

impl PostgresConnectionConfig {
    pub fn get_password(&self) -> (r: String)
        ensures
            r@ == self.password@,
    {
        self.password.clone()
    }
}

/// The port a relational store listens on when the configuration names none.
pub fn default_postgres_port() -> (r: u16)
    ensures
        r == 5432u16,
{
    5432
}

/// Connection parameters for a key-value store, with secrets already resolved.
#[derive(Clone, Debug)]
pub struct RedisConnectionConfig {
    pub service_type: ServiceType,
    pub host: String,
    pub port: u16,
    pub password: String,
    pub cluster_mode: Option<bool>,
    pub sentinel_hosts: Option<Vec<String>>,
    pub master_name: Option<String>,
}

impl RedisConnectionConfig {
    pub fn get_password(&self) -> (r: String)
        ensures
            r@ == self.password@,
    {
        self.password.clone()
    }
}

/// The port a key-value store listens on when the configuration names none.
pub fn default_redis_port() -> (r: u16)
    ensures
        r == 6379u16,
{
    6379
}

/// Connection parameters for one job, tagged by store kind.
#[derive(Clone, Debug)]
pub enum ConnectionConfig {
    Postgres(PostgresConnectionConfig),
    Redis(RedisConnectionConfig),
}

impl ConnectionConfig {
    /// The relational-store parameters, if this connection is one.
    pub fn as_postgres(&self) -> (r: Option<&PostgresConnectionConfig>)
        ensures
            match self {
                ConnectionConfig::Postgres(c) => r == Some(c),
                ConnectionConfig::Redis(_) => r is None,
            },
    {
        match self {
            ConnectionConfig::Postgres(config) => Some(config),
            _ => None,
        }
    }

    /// The key-value-store parameters, if this connection is one.
    pub fn as_redis(&self) -> (r: Option<&RedisConnectionConfig>)
        ensures
            match self {
                ConnectionConfig::Redis(c) => r == Some(c),
                ConnectionConfig::Postgres(_) => r is None,
            },
    {
        match self {
            ConnectionConfig::Redis(config) => Some(config),
            _ => None,
        }
    }
}

/// One configured backup job. `backup_options` is an ordered list of
/// key-value pairs; unknown keys are ignored by the jobs.
#[derive(Clone, Debug)]
pub struct ServiceConfig {
    pub service_type: ServiceType,
    pub alias: String,
    pub schedule: ScheduleConfig,
    pub connection: ConnectionConfig,
    pub backup_options: Option<Vec<(String, String)>>,
}

/// Settings shared by every job.
#[derive(Clone, Debug)]
pub struct CommonConfig {
    pub backup_dir: String,
    pub log_level: Option<String>,
    pub log_dir: Option<String>,
    pub retention_days: Option<i64>,
}

impl CommonConfig {
    /// The retention window in days; seven when the configuration names none.
    pub open spec fn spec_retention_days(&self) -> int {
        match self.retention_days {
            Some(d) => d as int,
            None => 7,
        }
    }

    /// The retention window in days; seven when the configuration names none.
    pub fn effective_retention_days(&self) -> (r: i64)
        ensures
            r as int == self.spec_retention_days(),
    {
        match self.retention_days {
            Some(d) => d,
            None => 7,
        }
    }
}

/// The whole configuration: shared settings and one entry per job.
#[derive(Clone, Debug)]
pub struct Config {
    pub common: CommonConfig,
    pub services: Vec<ServiceConfig>,
}

} // verus!
