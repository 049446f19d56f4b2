use backup_cron::config::CommonConfig;
use backup_cron::config::Config;
use backup_cron::config::ConnectionConfig;
use backup_cron::config::PostgresConnectionConfig;
use backup_cron::config::RedisConnectionConfig;
use backup_cron::config::ScheduleConfig;
use backup_cron::config::ServiceConfig;
use backup_cron::config::ServiceType;
use backup_cron::config::default_postgres_port;
use backup_cron::config::default_redis_port;
use backup_cron::scheduler::record_cycle;
use backup_cron::scheduler::BackupScheduler;
use backup_cron::scheduler::RunnerState;
use backup_cron::service::finish_backup;
use backup_cron::service::postgres::PostgresJob;
use backup_cron::service::redis::RedisAction;
use backup_cron::service::redis::RedisJob;
use backup_cron::service::JobError;
use backup_cron::service::ServiceFactory;
use backup_cron::service::ServiceJob;

fn schedule() -> ScheduleConfig {
    ScheduleConfig { interval_seconds: 60, timezone: None, start_time: None }
}

fn pg_connection(password: &str) -> PostgresConnectionConfig {
    PostgresConnectionConfig {
        service_type: ServiceType::Postgres,
        host: "dbhost".to_string(),
        port: 5433,
        username: "admin".to_string(),
        password: password.to_string(),
        database: "main".to_string(),
        schema: None,
        ssl_mode: None,
        connection_timeout: None,
    }
}

fn redis_connection(password: &str) -> RedisConnectionConfig {
    RedisConnectionConfig {
        service_type: ServiceType::Redis,
        host: "cachehost".to_string(),
        port: 6380,
        password: password.to_string(),
        cluster_mode: None,
        sentinel_hosts: None,
        master_name: None,
    }
}

fn pg_config(alias: &str, options: Option<Vec<(String, String)>>) -> ServiceConfig {
    ServiceConfig {
        service_type: ServiceType::Postgres,
        alias: alias.to_string(),
        schedule: schedule(),
        connection: ConnectionConfig::Postgres(pg_connection("secret")),
        backup_options: options,
    }
}

fn redis_config(alias: &str, options: Option<Vec<(String, String)>>) -> ServiceConfig {
    ServiceConfig {
        service_type: ServiceType::Redis,
        alias: alias.to_string(),
        schedule: schedule(),
        connection: ConnectionConfig::Redis(redis_connection("")),
        backup_options: options,
    }
}

#[test]
fn test_pg_dump_invocation() {
    let options = vec![
        ("schema_only".to_string(), "true".to_string()),
        ("format".to_string(), "custom".to_string()),
        ("exclude_table".to_string(), "audit".to_string()),
        ("nonsense".to_string(), "ignored".to_string()),
    ];
    let job = PostgresJob::new(pg_config("db", Some(options)), "/backups".to_string());
    let plan = job.plan_backup("2024-01-01_00:00:00.000000");
    assert_eq!(plan.program, "pg_dump");
    let expected = vec![
        "-h", "dbhost", "-p", "5433", "-U", "admin", "-d", "main", "-f",
        "/backups/postgres_db_2024-01-01_00:00:00.000000.sql", "--verbose", "--no-password",
        "--schema-only", "--format", "custom", "--exclude-table", "audit",
    ];
    assert_eq!(plan.args, expected);
    assert_eq!(plan.env, vec![("PGPASSWORD".to_string(), "secret".to_string())]);
}

#[test]
fn test_pg_dump_error_carries_alias_and_diagnostics() {
    let job = PostgresJob::new(pg_config("db", None), "/backups".to_string());
    let ok = job.dump_result("a.sql".to_string(), true, "");
    assert_eq!(ok.unwrap(), "a.sql");
    let err = job.dump_result("a.sql".to_string(), false, "connection refused");
    match err {
        Err(JobError::Dump(m)) => {
            assert_eq!(m, "pg_dump failed for db: connection refused");
        }
        other => panic!("expected a dump error, got {:?}", other.is_ok()),
    }
}

#[test]
fn test_redis_rdb_plan_with_auth() {
    let mut config = redis_config("cache", None);
    config.connection = ConnectionConfig::Redis(redis_connection("hunter2"));
    let job = RedisJob::new(config, "/backups".to_string());
    let plan = job.plan_backup("2024-01-01_00:00:00.000000").unwrap();
    assert!(matches!(plan.action, RedisAction::RdbCli));
    assert_eq!(plan.artifact, "/backups/redis_cache_2024-01-01_00:00:00.000000.rdb");
    assert_eq!(plan.auth_password.as_deref(), Some("hunter2"));
    let expected = vec![
        "-h", "cachehost", "-p", "6380", "-a", "hunter2", "--rdb",
        "/backups/redis_cache_2024-01-01_00:00:00.000000.rdb",
    ];
    assert_eq!(plan.args, expected);
}

#[test]
fn test_redis_save_plan_and_unknown_method() {
    let save = vec![("method".to_string(), "save".to_string())];
    let job = RedisJob::new(redis_config("cache", Some(save)), "/backups".to_string());
    let plan = job.plan_backup("2024-01-01_00:00:00.000000").unwrap();
    assert!(matches!(plan.action, RedisAction::SaveAndCopy));
    assert!(plan.auth_password.is_none());
    let expected = vec![
        "cp",
        "cachehost:/data/dump.rdb",
        "/backups/redis_cache_2024-01-01_00:00:00.000000.rdb",
    ];
    assert_eq!(plan.args, expected);

    let weird = vec![("method".to_string(), "weird".to_string())];
    let job = RedisJob::new(redis_config("cache", Some(weird)), "/backups".to_string());
    match job.plan_backup("2024-01-01_00:00:00.000000") {
        Err(JobError::Method(m)) => assert_eq!(m, "Unknown backup method: weird"),
        _ => panic!("an unknown method must be refused"),
    }
}

#[test]
fn test_redis_copy_failure_message() {
    let job = RedisJob::new(redis_config("cache", None), "/backups".to_string());
    match job.save_copy_result("a.rdb".to_string(), false) {
        Err(JobError::Dump(m)) => assert_eq!(m, "Failed to copy Redis dump file for cache"),
        _ => panic!("a failed copy must be an error"),
    }
    match job.rdb_result("a.rdb".to_string(), false, "boom") {
        Err(JobError::Dump(m)) => assert_eq!(m, "Redis RDB backup failed for cache: boom"),
        _ => panic!("a failed dump must be an error"),
    }
    assert_eq!(job.rdb_result("a.rdb".to_string(), true, "").unwrap(), "a.rdb");
    assert_eq!(job.save_copy_result("a.rdb".to_string(), true).unwrap(), "a.rdb");
}

#[test]
fn test_compression_degrade() {
    // the dump succeeded; compression failed: still a success, uncompressed
    let degraded = finish_backup("/backups/a.sql".to_string(), false);
    assert_eq!(degraded.path, "/backups/a.sql");
    assert!(degraded.compression_warning);
    let compressed = finish_backup("/backups/a.sql".to_string(), true);
    assert_eq!(compressed.path, "/backups/a.sql.gz");
    assert!(!compressed.compression_warning);
}

#[test]
fn test_job_independence() {
    // job A fails every cycle; job B keeps succeeding on its own ledger
    let mut a = RunnerState::idle();
    let mut b = RunnerState::idle();
    for _ in 0..3 {
        record_cycle(&mut a, false);
        record_cycle(&mut b, true);
    }
    assert_eq!(a.cycles, 3);
    assert_eq!(a.failures, 3);
    assert_eq!(a.successes, 0);
    assert_eq!(b.cycles, 3);
    assert_eq!(b.successes, 3);
    assert_eq!(b.failures, 0);
}

#[test]
fn test_factory_and_scheduler_construction() {
    let config = Config {
        common: CommonConfig {
            backup_dir: "/backups".to_string(),
            log_level: None,
            log_dir: None,
            retention_days: Some(14),
        },
        services: vec![pg_config("db", None), redis_config("cache", None)],
    };
    let scheduler = BackupScheduler::new(config).unwrap();
    assert_eq!(scheduler.services.len(), 2);
    match &scheduler.services[0] {
        ServiceJob::Postgres(p) => {
            assert_eq!(p.alias, "db");
            assert_eq!(p.backup_dir, "/backups");
            assert_eq!(p.service_type, ServiceType::Postgres);
        }
        _ => panic!("the first entry is a relational job"),
    }
    match &scheduler.services[1] {
        ServiceJob::Redis(r) => {
            assert_eq!(r.alias, "cache");
            assert_eq!(r.service_type, ServiceType::Redis);
        }
        _ => panic!("the second entry is a key-value job"),
    }
    let direct = ServiceFactory::create_service(pg_config("solo", None), "/b".to_string());
    assert!(matches!(direct, Ok(ServiceJob::Postgres(_))));
}

#[test]
fn test_connection_getters() {
    let pg = ConnectionConfig::Postgres(pg_connection("x"));
    assert!(pg.as_postgres().is_some());
    assert!(pg.as_redis().is_none());
    assert_eq!(pg.as_postgres().unwrap().get_password(), "x");
    let rd = ConnectionConfig::Redis(redis_connection("y"));
    assert!(rd.as_redis().is_some());
    assert!(rd.as_postgres().is_none());
    assert_eq!(rd.as_redis().unwrap().get_password(), "y");
    assert_eq!(default_postgres_port(), 5432);
    assert_eq!(default_redis_port(), 6379);
}

#[test]
fn test_service_type_from_tag() {
    assert_eq!(ServiceType::from_tag("postgres"), Some(ServiceType::Postgres));
    assert_eq!(ServiceType::from_tag("redis"), Some(ServiceType::Redis));
    assert_eq!(ServiceType::from_tag("mysql"), None);
    assert_eq!(ServiceType::from_tag(""), None);
    assert_eq!(ServiceType::Postgres.kind_name(), "postgres");
    assert_eq!(ServiceType::Redis.kind_name(), "redis");
}
