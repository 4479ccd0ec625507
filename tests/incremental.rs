use dbbackup::catalog::{BackupKind, Catalog, CatalogError, MysqlBackupRow};
use dbbackup::dump::{BackupError, record_dump};
use dbbackup::incremental::{PlanError, plan_xtrabackup, plan_xtrabackup_in, record_incremental, xtrabackup_result};
use dbbackup::mysql_config::{MySQLBackupConfig, MySQLBackupType, XtraBackupConfig, XtraBackupIncrementalConfig};

const DAY: i64 = 86400;
const NOW: i64 = 1_700_000_000;

fn xtra(chained: bool, parallel: Option<u8>) -> XtraBackupConfig {
    XtraBackupConfig {
        incremental: Some(XtraBackupIncrementalConfig { enabled: chained, basedir: "/home".to_string() }),
        parallel_threads: parallel,
        use_memory: None,
    }
}

fn backup(cfg: &XtraBackupConfig, databases: Option<Vec<&str>>, exclude: Option<Vec<&str>>) -> MySQLBackupConfig {
    MySQLBackupConfig {
        backup_type: MySQLBackupType::XtraBackup(cfg.clone()),
        databases: databases.map(|v| v.into_iter().map(String::from).collect()),
        databases_exclude: exclude.map(|v| v.into_iter().map(String::from).collect()),
        interval: "0 0 * * * *".to_string(),
    }
}

fn run(catalog: &mut Catalog, cfg: &XtraBackupConfig, uuid: u128, now: i64, date: &str) -> Option<u128> {
    let b = backup(cfg, None, None);
    let plan = plan_xtrabackup(catalog, "r1", "/srv", date, cfg, &b, "/tmp/my.cnf", uuid, now).unwrap();
    let base = plan.base_uuid;
    let recorded = record_incremental(catalog, plan, 100).unwrap();
    assert_eq!(recorded.base_uuid, base);
    base
}

#[test]
fn same_day_chain_then_fresh_base() {
    let cfg = xtra(true, None);
    let mut c = Catalog::new();
    let a = 0x0100;
    let b = 0x0200;
    let cc = 0x0300;
    assert_eq!(run(&mut c, &cfg, a, NOW, "2023-11-14"), None);
    assert_eq!(run(&mut c, &cfg, b, NOW + 60, "2023-11-14"), Some(a));
    assert_eq!(run(&mut c, &cfg, cc, NOW + DAY, "2023-11-15"), None);
    let rows = c.rows();
    assert_eq!(rows.len(), 3);
    assert_eq!(rows[0].base_uuid, None);
    assert_eq!(rows[1].base_uuid, Some(a));
    assert_eq!(rows[2].base_uuid, None);
    assert!(rows.iter().all(|r| r.backup_type == BackupKind::Incremental));
}

#[test]
fn third_same_day_run_chains_to_second() {
    let cfg = xtra(true, None);
    let mut c = Catalog::new();
    run(&mut c, &cfg, 1, NOW, "d");
    run(&mut c, &cfg, 2, NOW + 10, "d");
    assert_eq!(run(&mut c, &cfg, 3, NOW + 20, "d"), Some(2));
}

#[test]
fn chains_only_within_one_service() {
    let cfg = xtra(true, None);
    let b = backup(&cfg, None, None);
    let mut c = Catalog::new();
    run(&mut c, &cfg, 1, NOW, "d");
    let plan = plan_xtrabackup(&c, "other", "/srv", "d", &cfg, &b, "/tmp/my.cnf", 2, NOW + 5).unwrap();
    assert_eq!(plan.base_uuid, None);
}

#[test]
fn runs_chain_whatever_the_incremental_setting() {
    let cfg = xtra(false, None);
    let mut c = Catalog::new();
    assert_eq!(run(&mut c, &cfg, 1, NOW, "d"), None);
    assert_eq!(run(&mut c, &cfg, 2, NOW + 10, "d"), Some(1));
}

#[test]
fn long_run_is_recorded_after_other_services() {
    let cfg = xtra(true, None);
    let b = backup(&cfg, None, None);
    let mut c = Catalog::new();
    let plan = plan_xtrabackup(&c, "a", "/srv", "d", &cfg, &b, "/tmp/my.cnf", 10, NOW).unwrap();
    record_dump(&mut c, 20, "b".to_string(), "/srv/dump-b.sql".to_string(), 1, NOW + 30).unwrap();
    let row: MysqlBackupRow = record_incremental(&mut c, plan, 7).unwrap();
    assert_eq!(row.uuid, 10);
    let ids: Vec<u128> = c.rows().iter().map(|r| r.uuid).collect();
    assert_eq!(ids, vec![10, 20]);
}

#[test]
fn plan_refuses_a_used_directory() {
    let cfg = xtra(true, None);
    let b = backup(&cfg, None, None);
    let mut c = Catalog::new();
    let first = plan_xtrabackup_in(&c, "r1", "/srv", "d", "same", &cfg, &b, "/d.cnf", 1, NOW).unwrap();
    record_incremental(&mut c, first, 1).unwrap();
    let again = plan_xtrabackup_in(&c, "r1", "/srv", "d", "same", &cfg, &b, "/d.cnf", 2, NOW + 1);
    assert_eq!(again.err(), Some(PlanError::TargetInUse));
}

#[test]
fn record_refuses_duplicate_directory() {
    let cfg = xtra(true, None);
    let b = backup(&cfg, None, None);
    let mut c = Catalog::new();
    let p1 = plan_xtrabackup_in(&c, "r1", "/srv", "d", "x", &cfg, &b, "/d.cnf", 1, NOW).unwrap();
    let p2 = plan_xtrabackup_in(&c, "r1", "/srv", "d", "x", &cfg, &b, "/d.cnf", 2, NOW).unwrap();
    record_incremental(&mut c, p1, 1).unwrap();
    assert_eq!(record_incremental(&mut c, p2, 1).err(), Some(CatalogError::DuplicatePath));
}

#[test]
fn tool_failure_fails_the_run() {
    assert_eq!(xtrabackup_result(true), Ok(()));
    assert_eq!(xtrabackup_result(false), Err(BackupError::ToolFailed));
}

#[test]
fn plan_paths_and_arguments() {
    let cfg = xtra(true, Some(16));
    let b = backup(&cfg, Some(vec!["auth", "wordpress"]), Some(vec!["tmp"]));
    let mut c = Catalog::new();
    let first = plan_xtrabackup(&c, "r1", "/srv", "2023-11-14", &cfg, &b, "/tmp/my.cnf", 0xa1a2a3a4b1b2c1c2d1d2d3d4d5d6d7d8, NOW).unwrap();
    assert_eq!(first.target_dir, "/srv/2023-11-14/a1a2a3a4-b1b2-c1c2-d1d2-d3d4d5d6d7d8");
    assert_eq!(
        first.args,
        vec![
            "--defaults-file=/tmp/my.cnf",
            "--backup",
            "--parallel=16",
            "--databases-exclude=tmp",
            "--databases=auth wordpress",
            "--target-dir=/srv/2023-11-14/a1a2a3a4-b1b2-c1c2-d1d2-d3d4d5d6d7d8",
        ]
    );
    let dir = first.target_dir.clone();
    record_incremental(&mut c, first, 1).unwrap();
    let second = plan_xtrabackup(&c, "r1", "/srv/", "2023-11-14", &cfg, &b, "/tmp/my.cnf", 0xb0000000000000000000000000000000, NOW + 1).unwrap();
    assert_eq!(second.target_dir, "/srv/2023-11-14/b0000000-0000-0000-0000-000000000000");
    assert!(second.args.contains(&format!("--incremental-basedir={}", dir)));
    assert_eq!(second.args.last().unwrap(), "--target-dir=/srv/2023-11-14/b0000000-0000-0000-0000-000000000000");
}

#[test]
fn record_refuses_duplicate_run_id() {
    let cfg = xtra(true, None);
    let b = backup(&cfg, None, None);
    let mut c = Catalog::new();
    run(&mut c, &cfg, 9, NOW, "d");
    assert_eq!(plan_xtrabackup(&c, "r1", "/srv", "d", &cfg, &b, "/tmp/my.cnf", 9, NOW + 5).err(), Some(PlanError::TargetInUse));
    let plan = plan_xtrabackup_in(&c, "r1", "/srv", "d", "elsewhere", &cfg, &b, "/tmp/my.cnf", 9, NOW + 5).unwrap();
    assert_eq!(record_incremental(&mut c, plan, 1).err(), Some(CatalogError::DuplicateId));
    assert_eq!(c.len(), 1);
}

#[test]
fn plan_with_given_directory_name() {
    let cfg = xtra(true, None);
    let b = backup(&cfg, None, None);
    let mut c = Catalog::new();
    let first = plan_xtrabackup_in(&c, "r1", "/srv", "2024-05-06", "run-1", &cfg, &b, "/d.cnf", 1, NOW).unwrap();
    assert_eq!(first.target_dir, "/srv/2024-05-06/run-1");
    assert_eq!(first.args, vec!["--defaults-file=/d.cnf", "--backup", "--target-dir=/srv/2024-05-06/run-1"]);
    record_incremental(&mut c, first, 3).unwrap();
    let second = plan_xtrabackup_in(&c, "r1", "/srv", "2024-05-06", "run-2", &cfg, &b, "/d.cnf", 2, NOW + 5).unwrap();
    assert_eq!(second.base_uuid, Some(1));
    assert_eq!(
        second.args,
        vec![
            "--defaults-file=/d.cnf",
            "--backup",
            "--incremental-basedir=/srv/2024-05-06/run-1",
            "--target-dir=/srv/2024-05-06/run-2",
        ]
    );
}
