use backup_cron::config::CommonConfig;
use backup_cron::sweep::cutoff_secs;
use backup_cron::sweep::sweep_plan;
use backup_cron::sweep::sweep_report;
use backup_cron::sweep::ArtifactEntry;

fn entry(name: &str, created_secs: i64) -> ArtifactEntry {
    ArtifactEntry { name: name.to_string(), created_secs }
}

#[test]
fn test_sweep_correctness() {
    // cutoff at 1_000_000: older matching artifacts go, newer ones stay
    let entries = vec![
        entry("postgres_db_2024-01-01_00:00:00.000000.sql", 999_999),
        entry("postgres_db_2024-01-02_00:00:00.000000.sql", 1_000_000),
        entry("postgres_db_2024-01-03_00:00:00.000000.sql.gz", 1_000_001),
        entry("postgres_db_2023-12-30_00:00:00.000000.sql.gz", 500_000),
        entry("unrelated.txt", 1),
    ];
    let plan = sweep_plan(&entries, "db", 1_000_000);
    assert_eq!(plan, vec![true, false, false, true, false]);
}

#[test]
fn test_sweep_alias_isolation() {
    // both aliases have one stale artifact each; each sweep touches only its own
    let entries = vec![
        entry("postgres_db_2024-01-01_00:00:00.000000.sql", 10),
        entry("postgres_db2_2024-01-01_00:00:00.000000.sql", 10),
    ];
    let for_db = sweep_plan(&entries, "db", 100);
    assert_eq!(for_db, vec![true, false]);
    let for_db2 = sweep_plan(&entries, "db2", 100);
    assert_eq!(for_db2, vec![false, true]);
}

#[test]
fn test_partial_failure_isolation() {
    // three stale artifacts; deleting the first fails, the others are still
    // attempted and the sweep as a whole reports success
    let entries = vec![
        entry("redis_cache_2024-01-01_00:00:00.000000.rdb", 1),
        entry("redis_cache_2024-01-02_00:00:00.000000.rdb", 2),
        entry("redis_cache_2024-01-03_00:00:00.000000.rdb", 3),
        entry("redis_cache_2024-06-01_00:00:00.000000.rdb", 900),
    ];
    let plan = sweep_plan(&entries, "cache", 100);
    assert_eq!(plan, vec![true, true, true, false]);
    let delete_ok = vec![false, true, true, true];
    let report = sweep_report(&plan, &delete_ok);
    let stats = report.expect("a sweep with failed deletions still succeeds");
    assert_eq!(stats.planned, 3);
    assert_eq!(stats.failed, 1);
}

#[test]
fn test_cutoff_arithmetic() {
    assert_eq!(cutoff_secs(1_000_000, 7), 1_000_000 - 7 * 86_400);
    assert_eq!(cutoff_secs(0, 0), 0);
    // an absurd window saturates instead of wrapping
    assert_eq!(cutoff_secs(0, i64::MAX), i64::MIN);
}

#[test]
fn test_default_retention_days() {
    let unset = CommonConfig {
        backup_dir: "/backups".to_string(),
        log_level: None,
        log_dir: None,
        retention_days: None,
    };
    assert_eq!(unset.effective_retention_days(), 7);
    let set = CommonConfig { retention_days: Some(30), ..unset };
    assert_eq!(set.effective_retention_days(), 30);
}
