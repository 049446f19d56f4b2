//! The relational-store job: where its artifact goes, the exact dump
//! invocation for it, and how a run's results are judged.
use vstd::prelude::*;
use crate::common::BackupService;
use crate::config::ConnectionConfig;
use crate::config::PostgresConnectionConfig;
use crate::config::ScheduleConfig;
use crate::config::ServiceConfig;
use crate::config::ServiceType;
use crate::naming::artifact_path;
use crate::naming::artifact_path_for;
use crate::naming::str_eq;
use crate::service::JobError;
use crate::service::opts_view;
use crate::service::pairs_view;
use crate::service::strs_view;
use crate::utils::dec_str;
use crate::utils::u64_to_string;

verus! {

/// The external command one dump run must make: program, arguments,
/// environment, and the artifact the run is to produce.
pub struct DumpPlan {
    pub artifact: String,
    pub program: String,
    pub args: Vec<String>,
    pub env: Vec<(String, String)>,
}

/// The extra arguments one option pair contributes to the dump invocation.
pub open spec fn flag_args(k: Seq<char>, v: Seq<char>) -> Seq<Seq<char>> {
    if k == "schema_only"@ && v == "true"@ {
        seq!["--schema-only"@]
    } else if k == "data_only"@ && v == "true"@ {
        seq!["--data-only"@]
    } else if k == "format"@ {
        seq!["--format"@, v]
    } else if k == "exclude_table"@ {
        seq!["--exclude-table"@, v]
    } else {
        Seq::<Seq<char>>::empty()
    }
}

/// The extra arguments of all option pairs, in their configured order.
pub open spec fn option_flags(opts: Seq<(Seq<char>, Seq<char>)>) -> Seq<Seq<char>>
    decreases opts.len(),
{
    if opts.len() == 0 {
        Seq::<Seq<char>>::empty()
    } else {
        option_flags(opts.drop_last()) + flag_args(opts.last().0, opts.last().1)
    }
}

/// The full `pg_dump` argument list for one run.
pub open spec fn pg_args(job: PostgresJob, artifact: Seq<char>) -> Seq<Seq<char>> {
    seq![
        "-h"@,
        job.connection.host@,
        "-p"@,
        dec_str(job.connection.port as nat),
        "-U"@,
        job.connection.username@,
        "-d"@,
        job.connection.database@,
        "-f"@,
        artifact,
        "--verbose"@,
        "--no-password"@,
    ] + option_flags(opts_view(job.backup_options))
}

/// Is this the dump plan for one run of the job at this timestamp?
pub open spec fn pg_plan_matches(job: PostgresJob, ts: Seq<char>, p: DumpPlan) -> bool {
    &&& p.artifact@ == artifact_path(job.backup_dir@, "postgres"@, job.alias@, ts, ".sql"@)
    &&& p.program@ == "pg_dump"@
    &&& strs_view(p.args@) == pg_args(job, p.artifact@)
    &&& pairs_view(p.env@) == seq![("PGPASSWORD"@, job.connection.password@)]
}

/// One configured relational-store job.
pub struct PostgresJob {
    pub service_type: ServiceType,
    pub alias: String,
    pub schedule: ScheduleConfig,
    pub connection: PostgresConnectionConfig,
    pub backup_options: Option<Vec<(String, String)>>,
    pub backup_dir: String,
}

impl PostgresJob {
    /// A job from its configuration entry; the entry must carry
    /// relational-store connection parameters.
    pub fn new(config: ServiceConfig, backup_dir: String) -> (r: Self)
        requires
            config.connection is Postgres,
        ensures
            r.service_type == ServiceType::Postgres,
            r.alias == config.alias,
            r.schedule == config.schedule,
            config.connection matches ConnectionConfig::Postgres(c) && r.connection == c,
            r.backup_options == config.backup_options,
            r.backup_dir == backup_dir,
    {
        let connection = match config.connection {
            ConnectionConfig::Postgres(c) => c,
            ConnectionConfig::Redis(_) => vstd::pervasive::unreached(),
        };
        PostgresJob {
            service_type: ServiceType::Postgres,
            alias: config.alias,
            schedule: config.schedule,
            connection,
            backup_options: config.backup_options,
            backup_dir,
        }
    }

    /// The dump invocation for one run: artifact path from the timestamp,
    /// connection arguments, then the configured option flags in order.
    pub fn plan_backup(&self, timestamp: &str) -> (r: DumpPlan)
        ensures
            pg_plan_matches(*self, timestamp@, r),
    {
        let artifact = artifact_path_for(
            self.backup_dir.as_str(),
            "postgres",
            self.alias.as_str(),
            timestamp,
            ".sql",
        );
        let mut args: Vec<String> = Vec::new();
        args.push("-h".to_owned());
        args.push(self.connection.host.clone());
        args.push("-p".to_owned());
        args.push(u64_to_string(self.connection.port as u64));
        args.push("-U".to_owned());
        args.push(self.connection.username.clone());
        args.push("-d".to_owned());
        args.push(self.connection.database.clone());
        args.push("-f".to_owned());
        args.push(artifact.clone());
        args.push("--verbose".to_owned());
        args.push("--no-password".to_owned());
        let ghost base = strs_view(args@);
        proof {
            assert(base =~= pg_args(*self, artifact@).take(12));
        }
        if let Some(opts) = &self.backup_options {
            let mut i: usize = 0;
            while i < opts.len()
                invariant
                    0 <= i <= opts@.len(),
                    self.backup_options matches Some(o) && o@ == opts@,
                    strs_view(args@) =~= base + option_flags(pairs_view(opts@).take(i as int)),
                decreases opts@.len() - i,
            {
                let ghost before = strs_view(args@);
                let key = &opts[i].0;
                let value = &opts[i].1;
                if str_eq(key.as_str(), "schema_only") && str_eq(value.as_str(), "true") {
                    args.push("--schema-only".to_owned());
                } else if str_eq(key.as_str(), "data_only") && str_eq(value.as_str(), "true") {
                    args.push("--data-only".to_owned());
                } else if str_eq(key.as_str(), "format") {
                    args.push("--format".to_owned());
                    args.push(value.clone());
                } else if str_eq(key.as_str(), "exclude_table") {
                    args.push("--exclude-table".to_owned());
                    args.push(value.clone());
                }
                proof {
                    assert(pairs_view(opts@).take(i + 1).drop_last()
                        =~= pairs_view(opts@).take(i as int));
                    assert(strs_view(args@) =~= before + flag_args(opts@[i as int].0@, opts@[i as int].1@));
                }
                i = i + 1;
            }
            proof {
                assert(pairs_view(opts@).take(opts@.len() as int) =~= pairs_view(opts@));
            }
        }
        let mut env: Vec<(String, String)> = Vec::new();
        env.push(("PGPASSWORD".to_owned(), self.connection.get_password()));
        proof {
            assert(pairs_view(env@) =~= seq![("PGPASSWORD"@, self.connection.password@)]);
            assert(strs_view(args@) =~= pg_args(*self, artifact@));
        }
        DumpPlan { artifact, program: "pg_dump".to_owned(), args, env }
    }

    /// The run's verdict once the dump tool has finished: the artifact on
    /// success, else an error carrying the alias and the tool's own words.
    pub fn dump_result(&self, artifact: String, success: bool, stderr: &str) -> (r: Result<
        String,
        JobError,
    >)
        ensures
            success ==> (r matches Ok(p) && p == artifact),
            !success ==> (r matches Err(e) && e matches JobError::Dump(m) && m@
                == "pg_dump failed for "@ + self.alias@ + ": "@ + stderr@),
    {
        if success {
            Ok(artifact)
        } else {
            let mut m = "pg_dump failed for ".to_owned();
            m.append(self.alias.as_str());
            m.append(": ");
            m.append(stderr);
            Err(JobError::Dump(m))
        }
    }
}

impl BackupService for PostgresJob {
    open spec fn spec_alias(&self) -> Seq<char> {
        self.alias@
    }

    open spec fn spec_backup_dir(&self) -> Seq<char> {
        self.backup_dir@
    }

    open spec fn spec_service_type(&self) -> ServiceType {
        self.service_type
    }

    open spec fn spec_interval_seconds(&self) -> u64 {
        self.schedule.interval_seconds
    }

    fn alias(&self) -> (r: &str) {
        self.alias.as_str()
    }

    fn backup_dir(&self) -> (r: &str) {
        self.backup_dir.as_str()
    }

    fn service_type(&self) -> (r: &ServiceType) {
        &self.service_type
    }

    fn get_schedule(&self) -> (r: &ScheduleConfig) {
        &self.schedule
    }
}

} // verus!
