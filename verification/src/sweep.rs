//! The retention sweep: which artifacts in the backup directory are past the
//! window and should go. Policy only — reading the directory and removing
//! files stay with the surrounding process, which feeds the entries in and
//! carries the per-entry outcomes back.
use vstd::prelude::*;
use crate::naming::matches_alias;
use crate::naming::name_matches_alias;

verus! {

/// One directory entry under consideration: its file name and its creation
/// time in whole seconds of the Unix epoch.
pub struct ArtifactEntry {
    pub name: String,
    pub created_secs: i64,
}

/// Should an entry be deleted when sweeping for `alias` with this cutoff?
/// Exactly when it reads as one of the alias's artifacts and was created
/// before the cutoff.
pub open spec fn sweep_decision(
    name: Seq<char>,
    created_secs: int,
    alias: Seq<char>,
    cutoff_secs: int,
) -> bool {
    name_matches_alias(name, alias) && created_secs < cutoff_secs
}

/// Clamped to the range of `i64`.
pub open spec fn clamp_i64(x: int) -> int {
    if x > i64::MAX {
        i64::MAX as int
    } else if x < i64::MIN {
        i64::MIN as int
    } else {
        x
    }
}

/// The deletion cutoff: `now` less the retention window, in seconds.
pub fn cutoff_secs(now_secs: i64, retention_days: i64) -> (r: i64)
    ensures
        r as int == clamp_i64(now_secs - retention_days * 86400),
{
    let cut: i128 = (now_secs as i128) - (retention_days as i128) * 86400;
    if cut > i64::MAX as i128 {
        i64::MAX
    } else if cut < i64::MIN as i128 {
        i64::MIN
    } else {
        cut as i64
    }
}

/// The sweep plan: entry `i` is marked exactly when `sweep_decision` says so.
/// Each entry is judged on its own; no entry's fate depends on any other.
pub fn sweep_plan(entries: &Vec<ArtifactEntry>, alias: &str, cutoff: i64) -> (r: Vec<bool>)
    ensures
        r@.len() == entries@.len(),
        forall|i: int|
            0 <= i < entries@.len()
                ==> r@[i] == sweep_decision(
                    entries@[i].name@,
                    entries@[i].created_secs as int,
                    alias@,
                    cutoff as int,
                ),
{
    let mut plan: Vec<bool> = Vec::new();
    let mut i: usize = 0;
    while i < entries.len()
        invariant
            0 <= i <= entries@.len(),
            plan@.len() == i,
            forall|j: int|
                0 <= j < i
                    ==> plan@[j] == sweep_decision(
                        entries@[j].name@,
                        entries@[j].created_secs as int,
                        alias@,
                        cutoff as int,
                    ),
        decreases entries@.len() - i,
    {
        let entry = &entries[i];
        let marked = matches_alias(entry.name.as_str(), alias) && entry.created_secs < cutoff;
        plan.push(marked);
        i = i + 1;
    }
    plan
}

/// Sweep correctness over a job's own artifacts: an artifact a job wrote
/// for this alias — compressed or not — is marked for deletion exactly when
/// its creation time lies before the cutoff.
pub proof fn lemma_sweep_correctness(
    kind: Seq<char>,
    ext: Seq<char>,
    alias: Seq<char>,
    ts: Seq<char>,
    zipped: bool,
    created_secs: int,
    cutoff_secs: int,
)
    requires
        crate::naming::is_timestamp(ts),
        (kind == "postgres"@ && ext == ".sql"@) || (kind == "redis"@ && ext == ".rdb"@),
    ensures
        sweep_decision(
            crate::naming::artifact_base_name(
                kind,
                alias,
                ts,
                if zipped {
                    ext + crate::naming::gz_suffix()
                } else {
                    ext
                },
            ),
            created_secs,
            alias,
            cutoff_secs,
        ) <==> created_secs < cutoff_secs,
{
    crate::naming::lemma_own_name_matches(kind, ext, alias, ts, zipped);
}

/// Alias isolation at the sweep: however old it is, an artifact a job wrote
/// for one alias is never marked when sweeping for a different alias.
pub proof fn lemma_sweep_alias_isolation(
    kind: Seq<char>,
    ext: Seq<char>,
    alias: Seq<char>,
    other: Seq<char>,
    ts: Seq<char>,
    zipped: bool,
    created_secs: int,
    cutoff_secs: int,
)
    requires
        alias != other,
        crate::naming::is_timestamp(ts),
        (kind == "postgres"@ && ext == ".sql"@) || (kind == "redis"@ && ext == ".rdb"@),
    ensures
        !sweep_decision(
            crate::naming::artifact_base_name(
                kind,
                alias,
                ts,
                if zipped {
                    ext + crate::naming::gz_suffix()
                } else {
                    ext
                },
            ),
            created_secs,
            other,
            cutoff_secs,
        ),
{
    crate::naming::lemma_alias_isolation(kind, ext, alias, other, ts, zipped);
}

/// How many entries of a plan are marked.
pub open spec fn count_true(s: Seq<bool>) -> int
    decreases s.len(),
{
    if s.len() == 0 {
        0
    } else {
        count_true(s.drop_last()) + if s.last() {
            1int
        } else {
            0int
        }
    }
}

/// A count of marks never exceeds the number of entries.
pub proof fn lemma_count_true_bounds(s: Seq<bool>)
    ensures
        0 <= count_true(s) <= s.len(),
    decreases s.len(),
{
    if s.len() > 0 {
        lemma_count_true_bounds(s.drop_last());
    }
}

/// How many marked entries failed to be deleted.
pub open spec fn count_failed(plan: Seq<bool>, ok: Seq<bool>) -> int
    decreases plan.len(),
{
    if plan.len() == 0 {
        0
    } else {
        count_failed(plan.drop_last(), ok.drop_last()) + if plan.last() && !ok.last() {
            1int
        } else {
            0int
        }
    }
}

/// What one sweep did.
pub struct SweepStats {
    pub planned: usize,
    pub failed: usize,
}

/// A directory-level sweep failure, reported by the caller that read the
/// directory.
#[derive(Debug)]
pub struct SweepError {
    pub message: String,
}

/// The sweep's verdict once the marked deletions were attempted: per-entry
/// failures are counted, never fatal — the call reports success whatever the
/// outcomes were.
pub fn sweep_report(plan: &Vec<bool>, delete_ok: &Vec<bool>) -> (r: Result<SweepStats, SweepError>)
    requires
        plan@.len() == delete_ok@.len(),
    ensures
        r matches Ok(s) && s.planned == count_true(plan@) && s.failed == count_failed(
            plan@,
            delete_ok@,
        ),
{
    let mut planned: usize = 0;
    let mut failed: usize = 0;
    let mut i: usize = 0;
    while i < plan.len()
        invariant
            0 <= i <= plan@.len(),
            plan@.len() == delete_ok@.len(),
            planned == count_true(plan@.take(i as int)),
            failed == count_failed(plan@.take(i as int), delete_ok@.take(i as int)),
            planned <= i,
            failed <= i,
        decreases plan@.len() - i,
    {
        if plan[i] {
            planned = planned + 1;
            if !delete_ok[i] {
                failed = failed + 1;
            }
        }
        proof {
            assert(plan@.take(i + 1).drop_last() =~= plan@.take(i as int));
            assert(delete_ok@.take(i + 1).drop_last() =~= delete_ok@.take(i as int));
        }
        i = i + 1;
    }
    proof {
        assert(plan@.take(plan@.len() as int) =~= plan@);
        assert(delete_ok@.take(delete_ok@.len() as int) =~= delete_ok@);
    }
    Ok(SweepStats { planned, failed })
}

} // verus!
