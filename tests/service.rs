use std::str::FromStr;
use dbbackup::catalog::BackupKind;
use dbbackup::config::BackupConfig;
use dbbackup::mysql_config::{MySQLBackupConfig, MySQLBackupType, MySQLConnectionConfig, MySQLDumpConfig, XtraBackupConfig};
use dbbackup::schedule::{ScheduleError, Scheduler};
use dbbackup::service::MySQLService;

fn connection(backup: Option<MySQLBackupConfig>) -> MySQLConnectionConfig {
    MySQLConnectionConfig {
        host: Some("127.0.0.1".to_string()),
        port: Some(3306),
        username: Some("root".to_string()),
        password: Some("123456".to_string()),
        socket: None,
        defaults_file: None,
        backup,
    }
}

fn dump_backup(interval: &str) -> MySQLBackupConfig {
    MySQLBackupConfig {
        backup_type: MySQLBackupType::MySqlDump(MySQLDumpConfig { separate_tables: None }),
        databases: None,
        databases_exclude: None,
        interval: interval.to_string(),
    }
}

fn settings(keep_last: Option<u64>) -> BackupConfig {
    BackupConfig { basedir: "/srv".to_string(), keep_last }
}

#[test]
fn second_trigger_while_running_is_skipped() {
    let mut s = MySQLService::new(connection(None), settings(None));
    assert!(!s.running);
    assert!(s.try_set_running());
    assert!(!s.try_set_running());
    assert!(!s.try_set_running());
    s.set_running(false);
    assert!(s.try_set_running());
}

#[test]
fn run_plan_prunes_then_backs_up() {
    let s = MySQLService::new(connection(Some(dump_backup("0 0 * * * *"))), settings(Some(7)));
    let plan = s.run_plan(1_000_000);
    assert_eq!(plan.prune_before, Some(1_000_000 - 7 * 86400));
    assert_eq!(plan.backup, Some(BackupKind::Dump));

    let mut xtra = dump_backup("0 0 * * * *");
    xtra.backup_type = MySQLBackupType::XtraBackup(XtraBackupConfig { incremental: None, parallel_threads: None, use_memory: None });
    let s = MySQLService::new(connection(Some(xtra)), settings(None));
    let plan = s.run_plan(5);
    assert_eq!(plan.prune_before, None);
    assert_eq!(plan.backup, Some(BackupKind::Incremental));
}

#[test]
fn run_plan_without_backup_settings_does_nothing() {
    let s = MySQLService::new(connection(None), settings(Some(7)));
    let plan = s.run_plan(1_000_000);
    assert_eq!(plan.prune_before, None);
    assert_eq!(plan.backup, None);
}

#[test]
fn schedule_registers_valid_expressions() {
    let mut sched = Scheduler::new();
    let s = MySQLService::new(connection(Some(dump_backup("0 30 2 * * *"))), settings(None));
    assert_eq!(s.schedule(&mut sched, "mysql-r1"), Ok(()));
    assert_eq!(sched.jobs().len(), 1);
    assert_eq!(sched.jobs()[0].service(), "mysql-r1");
    assert_eq!(sched.jobs()[0].schedule().source(), "0 30 2 * * *");
    assert_eq!(sched.jobs()[0].expression(), "0 30 2 * * *");
}

#[test]
fn schedule_refuses_invalid_expression() {
    let mut sched = Scheduler::new();
    let s = MySQLService::new(connection(Some(dump_backup("every now and then"))), settings(None));
    assert_eq!(s.schedule(&mut sched, "mysql-r1"), Err(ScheduleError::InvalidScheduleExpression));
    assert!(sched.jobs().is_empty());
    assert_eq!(sched.register("x", "61 * * * * *"), Err(ScheduleError::InvalidScheduleExpression));
    assert!(sched.jobs().is_empty());
}

#[test]
fn schedule_skips_service_without_backup() {
    let mut sched = Scheduler::new();
    let s = MySQLService::new(connection(None), settings(None));
    assert_eq!(s.schedule(&mut sched, "idle"), Ok(()));
    assert!(sched.jobs().is_empty());
}

#[test]
fn add_parsed_takes_the_parse_outcome() {
    let mut sched = Scheduler::new();
    assert_eq!(sched.add_parsed("a", "0 0 * * * *", cron::Schedule::from_str("0 0 * * * *")), Ok(()));
    assert_eq!(sched.add_parsed("b", "nonsense", cron::Schedule::from_str("nonsense")), Err(ScheduleError::InvalidScheduleExpression));
    assert_eq!(sched.jobs().len(), 1);
    assert_eq!(sched.jobs()[0].service(), "a");
}
