//! The orchestration layer. The scheduler owns one job per configuration
//! entry, all built up front. The surrounding process gives each job its own
//! perpetual loop — wait, back up, sweep — and what each loop decides comes
//! from here: the fresh cycle plan, the sweep cutoff, and the rule that no
//! cycle's failure ever ends a loop and no job's end ever stops the others.
use vstd::prelude::*;
use crate::config::CommonConfig;
use crate::config::Config;
use crate::config::ServiceConfig;
use crate::service::JobError;
use crate::service::ServiceFactory;
use crate::service::ServiceJob;
use crate::service::job_for_config;
use crate::service::postgres::DumpPlan;
use crate::service::postgres::pg_plan_matches;
use crate::service::redis::RedisPlan;
use crate::service::redis::redis_plan_result_matches;
use crate::sweep::clamp_i64;
use crate::sweep::count_true;
use crate::sweep::cutoff_secs;

verus! {

/// The full set of jobs, one per configuration entry, and the settings they
/// share.
pub struct BackupScheduler {
    pub services: Vec<ServiceJob>,
    pub common_config: CommonConfig,
}

/// Each entry's connection parameters agree with its declared kind.
pub open spec fn entries_well_kinded(services: Seq<ServiceConfig>) -> bool {
    forall|i: int|
        0 <= i < services.len() ==> {
            &&& ((#[trigger] services[i]).service_type is Postgres ==> services[i].connection
                is Postgres)
            &&& (services[i].service_type is Redis ==> services[i].connection is Redis)
        }
}

impl BackupScheduler {
    /// One job per configuration entry, all built before any runs: a bad
    /// entry stops construction, so no job starts on a half-built set.
    pub fn new(config: Config) -> (r: Result<Self, JobError>)
        requires
            entries_well_kinded(config.services@),
        ensures
            r matches Ok(s) && {
                &&& s.common_config == config.common
                &&& s.services@.len() == config.services@.len()
                &&& forall|i: int|
                    0 <= i < config.services@.len() ==> job_for_config(
                        #[trigger] s.services@[i],
                        config.services@[i],
                        config.common.backup_dir@,
                    )
            },
    {
        let common = config.common;
        let mut remaining = config.services;
        let ghost orig = remaining@;
        let mut services: Vec<ServiceJob> = Vec::new();
        proof {
            assert(remaining@ =~= orig.skip(0));
        }
        while remaining.len() > 0
            invariant
                services@.len() + remaining@.len() == orig.len(),
                remaining@ =~= orig.skip(services@.len() as int),
                entries_well_kinded(orig),
                forall|j: int|
                    0 <= j < services@.len() ==> job_for_config(
                        #[trigger] services@[j],
                        orig[j],
                        common.backup_dir@,
                    ),
            decreases remaining@.len(),
        {
            let ghost k = services@.len() as int;
            let service_config = remaining.remove(0);
            proof {
                assert(orig.skip(k)[0] == orig[k]);
                assert(orig.skip(k).remove(0) =~= orig.skip(k + 1));
            }
            match ServiceFactory::create_service(service_config, common.backup_dir.clone()) {
                Ok(job) => {
                    services.push(job);
                },
                Err(e) => {
                    return Err(e);
                },
            }
        }
        proof {
            assert(services@.len() == orig.len());
        }
        Ok(BackupScheduler { services, common_config: common })
    }
}

/// A runner's ledger between cycles: how many cycles it has finished and how
/// they ended. One ledger per job; no runner reads another's.
pub struct RunnerState {
    pub cycles: u64,
    pub successes: u64,
    pub failures: u64,
}

impl RunnerState {
    /// Before the first cycle.
    pub fn idle() -> (r: RunnerState)
        ensures
            r.cycles == 0 && r.successes == 0 && r.failures == 0,
    {
        RunnerState { cycles: 0, successes: 0, failures: 0 }
    }
}

/// The ledger after one more cycle with this outcome.
pub open spec fn runner_after(s: RunnerState, ok: bool) -> RunnerState {
    RunnerState {
        cycles: (s.cycles + 1) as u64,
        successes: if ok {
            (s.successes + 1) as u64
        } else {
            s.successes
        },
        failures: if ok {
            s.failures
        } else {
            (s.failures + 1) as u64
        },
    }
}

/// The ledger after a whole run of cycles, oldest first.
pub open spec fn runner_fold(s: RunnerState, outcomes: Seq<bool>) -> RunnerState
    decreases outcomes.len(),
{
    if outcomes.len() == 0 {
        s
    } else {
        runner_after(runner_fold(s, outcomes.drop_last()), outcomes.last())
    }
}

/// One finished cycle: the outcome is recorded and the runner goes on to
/// the next wait — a failed run never ends the loop.
pub fn record_cycle(state: &mut RunnerState, execute_ok: bool)
    requires
        old(state).cycles < u64::MAX,
        old(state).successes < u64::MAX,
        old(state).failures < u64::MAX,
    ensures
        *final(state) == runner_after(*old(state), execute_ok),
{
    state.cycles = state.cycles + 1;
    if execute_ok {
        state.successes = state.successes + 1;
    } else {
        state.failures = state.failures + 1;
    }
}

/// Job independence: a runner's ledger is a fold of its own outcomes alone,
/// so whatever any other job's runs do, this runner finishes one cycle per
/// tick — counting a success for each good run, a failure for each bad one —
/// and is still going afterwards.
pub proof fn lemma_job_independence(s: RunnerState, outcomes: Seq<bool>)
    requires
        s.cycles + outcomes.len() <= u64::MAX,
        s.successes + outcomes.len() <= u64::MAX,
        s.failures + outcomes.len() <= u64::MAX,
    ensures
        runner_fold(s, outcomes).cycles == s.cycles + outcomes.len(),
        runner_fold(s, outcomes).successes == s.successes + count_true(outcomes),
        runner_fold(s, outcomes).failures == s.failures + outcomes.len() - count_true(outcomes),
    decreases outcomes.len(),
{
    if outcomes.len() > 0 {
        crate::sweep::lemma_count_true_bounds(outcomes.drop_last());
        lemma_job_independence(s, outcomes.drop_last());
    }
}

/// What one cycle is to do, by job kind: run the dump command, or run the
/// key-value plan — or refuse an unknown method before anything runs.
pub enum CycleWork {
    Postgres(DumpPlan),
    Redis(Result<RedisPlan, JobError>),
}

/// Relies on chrono's `Utc::now` and its `format` with
/// `%Y-%m-%d_%H:%M:%S.%f`: the current UTC time as a sortable string. The
/// result depends on the clock, so nothing is promised of it.
#[verifier::external_body]
fn fresh_timestamp() -> String {
    chrono::Utc::now().format("%Y-%m-%d_%H:%M:%S.%f").to_string()
}

/// Relies on chrono's `Utc::now` and `timestamp`: the current time in whole
/// seconds of the Unix epoch. The result depends on the clock, so nothing is
/// promised of it.
#[verifier::external_body]
fn now_unix_seconds() -> i64 {
    chrono::Utc::now().timestamp()
}

/// The start of one cycle: a fresh timestamp is drawn from the clock once,
/// and the job's whole plan is built from it — whatever the clock gave, the
/// plan is exact for the timestamp handed back.
pub fn begin_cycle(job: &ServiceJob) -> (r: (String, CycleWork))
    ensures
        match r.1 {
            CycleWork::Postgres(p) => job matches ServiceJob::Postgres(pj) && pg_plan_matches(
                *pj,
                r.0@,
                p,
            ),
            CycleWork::Redis(res) => job matches ServiceJob::Redis(rj)
                && redis_plan_result_matches(*rj, r.0@, res),
        },
{
    let ts = fresh_timestamp();
    match job {
        ServiceJob::Postgres(p) => {
            let plan = p.plan_backup(ts.as_str());
            (ts, CycleWork::Postgres(plan))
        },
        ServiceJob::Redis(p) => {
            let plan = p.plan_backup(ts.as_str());
            (ts, CycleWork::Redis(plan))
        },
    }
}

/// The sweep cutoff for a cycle ending now: the clock, less the configured
/// retention window. Exact for whatever the clock read.
pub fn current_cutoff(common: &CommonConfig) -> (r: i64)
    ensures
        exists|now: int| r as int == #[trigger] clamp_i64(
            now - common.spec_retention_days() * 86400,
        ),
{
    let now = now_unix_seconds();
    let days = common.effective_retention_days();
    let cut = cutoff_secs(now, days);
    proof {
        assert(cut as int == clamp_i64(now as int - common.spec_retention_days() * 86400));
    }
    cut
}

} // verus!
