//! The key-value-store job: where its artifact goes, the dump method chosen
//! from the options, the exact invocation for either method, and how a run's
//! results are judged.
use vstd::prelude::*;
use crate::common::BackupService;
use crate::config::ConnectionConfig;
use crate::config::RedisConnectionConfig;
use crate::config::ScheduleConfig;
use crate::config::ServiceConfig;
use crate::config::ServiceType;
use crate::naming::artifact_path;
use crate::naming::artifact_path_for;
use crate::naming::str_eq;
use crate::service::JobError;
use crate::service::opts_view;
use crate::service::strs_view;
use crate::utils::dec_str;
use crate::utils::u64_to_string;

verus! {

/// How the dump is taken: a streaming copy through the client tool, or an
/// explicit save followed by copying the dump file out of the container.
#[derive(PartialEq, Eq, Structural)]
pub enum RedisAction {
    RdbCli,
    SaveAndCopy,
}

/// The work one key-value dump run must do: authenticate when a password is
/// set, then run the action's command with these arguments.
pub struct RedisPlan {
    pub artifact: String,
    pub action: RedisAction,
    pub args: Vec<String>,
    pub auth_password: Option<String>,
}

/// The configured dump method: the first `method` option, `rdb` when none
/// is named.
pub open spec fn redis_method(opts: Seq<(Seq<char>, Seq<char>)>) -> Seq<char>
    decreases opts.len(),
{
    if opts.len() == 0 {
        "rdb"@
    } else if opts[0].0 == "method"@ {
        opts[0].1
    } else {
        redis_method(opts.drop_first())
    }
}

/// The client-tool argument list for a streaming dump.
pub open spec fn redis_cli_args(job: RedisJob, artifact: Seq<char>) -> Seq<Seq<char>> {
    seq!["-h"@, job.connection.host@, "-p"@, dec_str(job.connection.port as nat)] + (
    if job.connection.password@.len() > 0 {
        seq!["-a"@, job.connection.password@]
    } else {
        Seq::<Seq<char>>::empty()
    }) + seq!["--rdb"@, artifact]
}

/// The copy arguments for a save-then-copy dump.
pub open spec fn docker_copy_args(job: RedisJob, artifact: Seq<char>) -> Seq<Seq<char>> {
    seq!["cp"@, job.connection.host@ + ":/data/dump.rdb"@, artifact]
}

/// Is this the plan for one run of the job at this timestamp?
pub open spec fn redis_plan_matches(job: RedisJob, ts: Seq<char>, p: RedisPlan) -> bool {
    let artifact = artifact_path(job.backup_dir@, "redis"@, job.alias@, ts, ".rdb"@);
    let method = redis_method(opts_view(job.backup_options));
    &&& p.artifact@ == artifact
    &&& match p.auth_password {
        Some(pw) => job.connection.password@.len() > 0 && pw@ == job.connection.password@,
        None => job.connection.password@.len() == 0,
    }
    &&& (method == "rdb"@ ==> p.action == RedisAction::RdbCli && strs_view(p.args@)
        == redis_cli_args(job, artifact))
    &&& (method == "save"@ ==> p.action == RedisAction::SaveAndCopy && strs_view(p.args@)
        == docker_copy_args(job, artifact))
}

/// Is this the right outcome of planning one run at this timestamp? A plan
/// for a known method, an error naming the method otherwise.
pub open spec fn redis_plan_result_matches(
    job: RedisJob,
    ts: Seq<char>,
    r: Result<RedisPlan, JobError>,
) -> bool {
    let method = redis_method(opts_view(job.backup_options));
    &&& (method == "rdb"@ || method == "save"@) ==> (r matches Ok(p) && redis_plan_matches(
        job,
        ts,
        p,
    ))
    &&& !(method == "rdb"@ || method == "save"@) ==> (r matches Err(e) && e matches
        JobError::Method(m) && m@ == "Unknown backup method: "@ + method)
}

/// One configured key-value-store job.
pub struct RedisJob {
    pub service_type: ServiceType,
    pub alias: String,
    pub schedule: ScheduleConfig,
    pub connection: RedisConnectionConfig,
    pub backup_options: Option<Vec<(String, String)>>,
    pub backup_dir: String,
}

impl RedisJob {
    /// A job from its configuration entry; the entry must carry
    /// key-value-store connection parameters.
    pub fn new(config: ServiceConfig, backup_dir: String) -> (r: Self)
        requires
            config.connection is Redis,
        ensures
            r.service_type == ServiceType::Redis,
            r.alias == config.alias,
            r.schedule == config.schedule,
            config.connection matches ConnectionConfig::Redis(c) && r.connection == c,
            r.backup_options == config.backup_options,
            r.backup_dir == backup_dir,
    {
        let connection = match config.connection {
            ConnectionConfig::Redis(c) => c,
            ConnectionConfig::Postgres(_) => vstd::pervasive::unreached(),
        };
        RedisJob {
            service_type: ServiceType::Redis,
            alias: config.alias,
            schedule: config.schedule,
            connection,
            backup_options: config.backup_options,
            backup_dir,
        }
    }

    /// The configured dump method, as written.
    fn method(&self) -> (r: String)
        ensures
            r@ == redis_method(opts_view(self.backup_options)),
    {
        if let Some(opts) = &self.backup_options {
            let ghost whole = crate::service::pairs_view(opts@);
            proof {
                assert(whole.skip(0) =~= whole);
            }
            let mut i: usize = 0;
            while i < opts.len()
                invariant
                    0 <= i <= opts@.len(),
                    self.backup_options matches Some(o) && o@ == opts@,
                    whole == crate::service::pairs_view(opts@),
                    redis_method(whole) == redis_method(whole.skip(i as int)),
                decreases opts@.len() - i,
            {
                if str_eq(opts[i].0.as_str(), "method") {
                    proof {
                        assert(whole.skip(i as int)[0] == whole[i as int]);
                    }
                    return opts[i].1.clone();
                }
                proof {
                    assert(whole.skip(i as int)[0] == whole[i as int]);
                    assert(whole.skip(i as int).drop_first() =~= whole.skip(i + 1));
                }
                i = i + 1;
            }
            proof {
                assert(whole.skip(whole.len() as int) =~= Seq::<(Seq<char>, Seq<char>)>::empty());
            }
            "rdb".to_owned()
        } else {
            "rdb".to_owned()
        }
    }

    /// The plan for one run: artifact path from the timestamp, the method
    /// chosen from the options, and the exact command for it. A method
    /// other than `rdb` or `save` is refused by name.
    pub fn plan_backup(&self, timestamp: &str) -> (r: Result<RedisPlan, JobError>)
        ensures
            redis_plan_result_matches(*self, timestamp@, r),
    {
        let artifact = artifact_path_for(
            self.backup_dir.as_str(),
            "redis",
            self.alias.as_str(),
            timestamp,
            ".rdb",
        );
        let password = self.connection.get_password();
        let auth_password: Option<String> = if password.as_str().unicode_len() > 0 {
            Some(password)
        } else {
            None
        };
        let method = self.method();
        proof {
            reveal_strlit("rdb");
            reveal_strlit("save");
        }
        if str_eq(method.as_str(), "rdb") {
            let mut args: Vec<String> = Vec::new();
            args.push("-h".to_owned());
            args.push(self.connection.host.clone());
            args.push("-p".to_owned());
            args.push(u64_to_string(self.connection.port as u64));
            if self.connection.password.as_str().unicode_len() > 0 {
                args.push("-a".to_owned());
                args.push(self.connection.get_password());
            }
            args.push("--rdb".to_owned());
            args.push(artifact.clone());
            proof {
                assert(strs_view(args@) =~= redis_cli_args(
                    *self,
                    artifact_path(
                        self.backup_dir@,
                        "redis"@,
                        self.alias@,
                        timestamp@,
                        ".rdb"@,
                    ),
                ));
            }
            proof {
                assert(method@ == "rdb"@);
                assert("save"@.len() == 4 && "rdb"@.len() == 3);
                assert(!("save"@ == "rdb"@));
            }
            Ok(RedisPlan { artifact, action: RedisAction::RdbCli, args, auth_password })
        } else if str_eq(method.as_str(), "save") {
            let mut target = self.connection.host.clone();
            target.append(":/data/dump.rdb");
            let mut args: Vec<String> = Vec::new();
            args.push("cp".to_owned());
            args.push(target);
            args.push(artifact.clone());
            proof {
                assert(strs_view(args@) =~= docker_copy_args(
                    *self,
                    artifact_path(
                        self.backup_dir@,
                        "redis"@,
                        self.alias@,
                        timestamp@,
                        ".rdb"@,
                    ),
                ));
            }
            Ok(RedisPlan { artifact, action: RedisAction::SaveAndCopy, args, auth_password })
        } else {
            let mut m = "Unknown backup method: ".to_owned();
            m.append(method.as_str());
            Err(JobError::Method(m))
        }
    }

    /// Judges a finished streaming dump: the artifact when the tool
    /// succeeded, else an error carrying the alias and the tool's own words.
    pub fn rdb_result(&self, artifact: String, success: bool, stderr: &str) -> (r: Result<
        String,
        JobError,
    >)
        ensures
            success ==> (r matches Ok(p) && p == artifact),
            !success ==> (r matches Err(e) && e matches JobError::Dump(m) && m@
                == "Redis RDB backup failed for "@ + self.alias@ + ": "@ + stderr@),
    {
        if success {
            Ok(artifact)
        } else {
            let mut m = "Redis RDB backup failed for ".to_owned();
            m.append(self.alias.as_str());
            m.append(": ");
            m.append(stderr);
            Err(JobError::Dump(m))
        }
    }

    /// Judges a finished save-then-copy dump: the artifact when the copy
    /// succeeded, else an error naming the alias.
    pub fn save_copy_result(&self, artifact: String, success: bool) -> (r: Result<
        String,
        JobError,
    >)
        ensures
            success ==> (r matches Ok(p) && p == artifact),
            !success ==> (r matches Err(e) && e matches JobError::Dump(m) && m@
                == "Failed to copy Redis dump file for "@ + self.alias@),
    {
        if success {
            Ok(artifact)
        } else {
            let mut m = "Failed to copy Redis dump file for ".to_owned();
            m.append(self.alias.as_str());
            Err(JobError::Dump(m))
        }
    }
}

impl BackupService for RedisJob {
    open spec fn spec_alias(&self) -> Seq<char> {
        self.alias@
    }

    open spec fn spec_backup_dir(&self) -> Seq<char> {
        self.backup_dir@
    }

    open spec fn spec_service_type(&self) -> ServiceType {
        self.service_type
    }

    open spec fn spec_interval_seconds(&self) -> u64 {
        self.schedule.interval_seconds
    }

    fn alias(&self) -> (r: &str) {
        self.alias.as_str()
    }

    fn backup_dir(&self) -> (r: &str) {
        self.backup_dir.as_str()
    }

    fn service_type(&self) -> (r: &ServiceType) {
        &self.service_type
    }

    fn get_schedule(&self) -> (r: &ScheduleConfig) {
        &self.schedule
    }
}

} // verus!
