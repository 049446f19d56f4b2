use backup_cron::config::ConnectionConfig;
use backup_cron::config::PostgresConnectionConfig;
use backup_cron::config::ScheduleConfig;
use backup_cron::config::ServiceConfig;
use backup_cron::config::ServiceType;
use backup_cron::naming::matches_alias;
use backup_cron::service::postgres::PostgresJob;
use backup_cron::utils::u64_to_string;

fn count_occurrences(haystack: &str, needle: &str) -> usize {
    let mut n = 0;
    let mut at = 0;
    while let Some(p) = haystack[at..].find(needle) {
        n += 1;
        at += p + 1;
    }
    n
}

fn pg_service_config(alias: &str) -> ServiceConfig {
    ServiceConfig {
        service_type: ServiceType::Postgres,
        alias: alias.to_string(),
        schedule: ScheduleConfig { interval_seconds: 3600, timezone: None, start_time: None },
        connection: ConnectionConfig::Postgres(PostgresConnectionConfig {
            service_type: ServiceType::Postgres,
            host: "localhost".to_string(),
            port: 5432,
            username: "admin".to_string(),
            password: "pw".to_string(),
            database: "main".to_string(),
            schema: None,
            ssl_mode: None,
            connection_timeout: None,
        }),
        backup_options: None,
    }
}

#[test]
fn test_deterministic_naming() {
    let job = PostgresJob::new(pg_service_config("db"), "/backups".to_string());
    let plan = job.plan_backup("2024-01-01_00:00:00.000000");
    assert_eq!(plan.artifact, "/backups/postgres_db_2024-01-01_00:00:00.000000.sql");
    assert_eq!(count_occurrences(&plan.artifact, "db"), 1);
    assert_eq!(count_occurrences(&plan.artifact, "2024-01-01_00:00:00.000000"), 1);
    // the same timestamp gives the same path again
    let again = job.plan_backup("2024-01-01_00:00:00.000000");
    assert_eq!(again.artifact, plan.artifact);
}

#[test]
fn test_matches_own_artifacts() {
    assert!(matches_alias("postgres_db_2024-01-01_00:00:00.000000.sql", "db"));
    assert!(matches_alias("postgres_db_2024-01-01_00:00:00.000000.sql.gz", "db"));
    assert!(matches_alias("redis_cache_2024-06-30_23:59:59.123456789.rdb", "cache"));
    assert!(matches_alias("redis_cache_2024-06-30_23:59:59.123456789.rdb.gz", "cache"));
    // aliases with separators of their own still round-trip
    assert!(matches_alias("postgres_my_db_2024-01-01_00:00:00.000000.sql", "my_db"));
}

#[test]
fn test_rejects_foreign_and_malformed_names() {
    // a different alias, even sharing a prefix, never matches
    assert!(!matches_alias("postgres_db2_2024-01-01_00:00:00.000000.sql", "db"));
    assert!(!matches_alias("postgres_db_2024-01-01_00:00:00.000000.sql", "db2"));
    // wrong kind prefix, wrong extension, or no timestamp shape
    assert!(!matches_alias("mysql_db_2024-01-01_00:00:00.000000.sql", "db"));
    assert!(!matches_alias("postgres_db_2024-01-01_00:00:00.000000.rdb", "db"));
    assert!(!matches_alias("postgres_db_notatimestamp.sql", "db"));
    assert!(!matches_alias("postgres_db_2024-01-01.sql", "db"));
    assert!(!matches_alias("", "db"));
}

#[test]
fn test_alias_isolation_both_ways() {
    // artifacts of "db" and of "db2", swept for the other alias
    let of_db = "postgres_db_2024-03-05_10:20:30.000000.sql";
    let of_db2 = "postgres_db2_2024-03-05_10:20:30.000000.sql";
    assert!(matches_alias(of_db, "db") && !matches_alias(of_db, "db2"));
    assert!(matches_alias(of_db2, "db2") && !matches_alias(of_db2, "db"));
    let zipped_db = "redis_db_2024-03-05_10:20:30.000000.rdb.gz";
    let zipped_db2 = "redis_db2_2024-03-05_10:20:30.000000.rdb.gz";
    assert!(matches_alias(zipped_db, "db") && !matches_alias(zipped_db, "db2"));
    assert!(matches_alias(zipped_db2, "db2") && !matches_alias(zipped_db2, "db"));
}

#[test]
fn test_u64_to_string() {
    assert_eq!(u64_to_string(0), "0");
    assert_eq!(u64_to_string(7), "7");
    assert_eq!(u64_to_string(5432), "5432");
    assert_eq!(u64_to_string(65535), "65535");
    assert_eq!(u64_to_string(18446744073709551615), "18446744073709551615");
}
