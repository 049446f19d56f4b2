//! The jobs themselves, one module per store kind, and what they share:
//! the factory, the run outcome, and the error values a run can produce.
pub mod postgres;
pub mod redis;

use vstd::prelude::*;
use crate::config::ConnectionConfig;
use crate::config::ServiceConfig;
use crate::config::ServiceType;
use crate::service::postgres::PostgresJob;
use crate::service::redis::RedisJob;

verus! {

/// An error a backup run can end in. A dump failure carries the alias and
/// the tool's own words; an unknown dump method is refused before anything
/// runs.
#[derive(Debug)]
pub enum JobError {
    Dump(String),
    Method(String),
}

impl JobError {
    /// The error's message.
    pub fn message(&self) -> (r: &str)
        ensures
            match self {
                JobError::Dump(m) => r@ == m@,
                JobError::Method(m) => r@ == m@,
            },
    {
        match self {
            JobError::Dump(m) => m.as_str(),
            JobError::Method(m) => m.as_str(),
        }
    }
}

/// What one successful run hands back: the artifact's path, and whether
/// compression had to be given up on.
pub struct RunOutcome {
    pub path: String,
    pub compression_warning: bool,
}

/// The end of a successful dump: compression is attempted, and its failure
/// is not an error — the run still succeeds, with the uncompressed artifact
/// and a warning mark.
pub fn finish_backup(artifact: String, compress_ok: bool) -> (r: RunOutcome)
    ensures
        compress_ok ==> r.path@ == artifact@ + ".gz"@ && !r.compression_warning,
        !compress_ok ==> r.path == artifact && r.compression_warning,
{
    if compress_ok {
        let mut path = artifact;
        path.append(".gz");
        RunOutcome { path, compression_warning: false }
    } else {
        RunOutcome { path: artifact, compression_warning: true }
    }
}

/// The views of a list of strings.
pub open spec fn strs_view(s: Seq<String>) -> Seq<Seq<char>> {
    s.map_values(|x: String| x@)
}

/// The views of a list of string pairs.
pub open spec fn pairs_view(s: Seq<(String, String)>) -> Seq<(Seq<char>, Seq<char>)> {
    s.map_values(|p: (String, String)| (p.0@, p.1@))
}

/// The views of an optional list of option pairs; absent means none.
pub open spec fn opts_view(o: Option<Vec<(String, String)>>) -> Seq<(Seq<char>, Seq<char>)> {
    match o {
        Some(v) => pairs_view(v@),
        None => Seq::<(Seq<char>, Seq<char>)>::empty(),
    }
}

/// One job of either kind.
pub enum ServiceJob {
    Postgres(PostgresJob),
    Redis(RedisJob),
}

/// Does the job carry exactly what the configuration entry asked for?
pub open spec fn job_for_config(j: ServiceJob, config: ServiceConfig, backup_dir: Seq<char>) -> bool {
    match j {
        ServiceJob::Postgres(p) => {
            &&& config.service_type == ServiceType::Postgres
            &&& p.service_type == ServiceType::Postgres
            &&& p.alias == config.alias
            &&& p.schedule == config.schedule
            &&& (config.connection matches ConnectionConfig::Postgres(c) && p.connection == c)
            &&& p.backup_options == config.backup_options
            &&& p.backup_dir@ == backup_dir
        },
        ServiceJob::Redis(p) => {
            &&& config.service_type == ServiceType::Redis
            &&& p.service_type == ServiceType::Redis
            &&& p.alias == config.alias
            &&& p.schedule == config.schedule
            &&& (config.connection matches ConnectionConfig::Redis(c) && p.connection == c)
            &&& p.backup_options == config.backup_options
            &&& p.backup_dir@ == backup_dir
        },
    }
}

impl ServiceJob {
    /// The job's configured name.
    pub fn alias(&self) -> (r: &str)
        ensures
            match self {
                ServiceJob::Postgres(p) => r@ == p.alias@,
                ServiceJob::Redis(p) => r@ == p.alias@,
            },
    {
        match self {
            ServiceJob::Postgres(p) => p.alias.as_str(),
            ServiceJob::Redis(p) => p.alias.as_str(),
        }
    }

    /// Seconds between two of this job's runs.
    pub fn interval_seconds(&self) -> (r: u64)
        ensures
            match self {
                ServiceJob::Postgres(p) => r == p.schedule.interval_seconds,
                ServiceJob::Redis(p) => r == p.schedule.interval_seconds,
            },
    {
        match self {
            ServiceJob::Postgres(p) => p.schedule.interval_seconds,
            ServiceJob::Redis(p) => p.schedule.interval_seconds,
        }
    }
}

/// Builds the job a configuration entry asks for.
pub struct ServiceFactory;

impl ServiceFactory {
    /// One job from one configuration entry. The set of kinds is closed, so
    /// every well-formed entry yields a job.
    pub fn create_service(config: ServiceConfig, backup_dir: String) -> (r: Result<
        ServiceJob,
        JobError,
    >)
        requires
            config.service_type is Postgres ==> config.connection is Postgres,
            config.service_type is Redis ==> config.connection is Redis,
        ensures
            r matches Ok(j) && job_for_config(j, config, backup_dir@),
    {
        match config.service_type {
            ServiceType::Postgres => Ok(
                ServiceJob::Postgres(PostgresJob::new(config, backup_dir)),
            ),
            ServiceType::Redis => Ok(ServiceJob::Redis(RedisJob::new(config, backup_dir))),
        }
    }
}

} // verus!
