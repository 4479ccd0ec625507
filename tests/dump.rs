use dbbackup::catalog::{BackupKind, Catalog};
use dbbackup::dump::{
    BackupError, database_target, dump_run_result, is_system_schema, mysqldump_args, needs_server_databases,
    plan_database_dump, record_dump, select_databases, separate_tables,
};
use dbbackup::mysql_config::{MySQLBackupConfig, MySQLBackupType, MySQLDumpConfig};

fn strings(v: &[&str]) -> Vec<String> {
    v.iter().map(|s| s.to_string()).collect()
}

fn config(databases: Option<&[&str]>, exclude: Option<&[&str]>) -> MySQLBackupConfig {
    MySQLBackupConfig {
        backup_type: MySQLBackupType::MySqlDump(MySQLDumpConfig { separate_tables: None }),
        databases: databases.map(strings),
        databases_exclude: exclude.map(strings),
        interval: "0 0 * * * *".to_string(),
    }
}

#[test]
fn allow_list_short_circuits_exclusion() {
    let cfg = config(Some(&["auth", "wordpress"]), Some(&["auth"]));
    assert!(!needs_server_databases(&cfg));
    let server = strings(&["auth", "shop", "mysql"]);
    assert_eq!(select_databases(&cfg, &server), strings(&["auth", "wordpress"]));
    assert_eq!(select_databases(&cfg, &Vec::new()), strings(&["auth", "wordpress"]));
}

#[test]
fn discovery_drops_excluded_and_system_schemas() {
    let cfg = config(None, Some(&["shop"]));
    assert!(needs_server_databases(&cfg));
    let server = strings(&["information_schema", "auth", "mysql", "shop", "performance_schema", "sys", "blog"]);
    assert_eq!(select_databases(&cfg, &server), strings(&["auth", "blog"]));
    let no_exclude = config(None, None);
    assert_eq!(select_databases(&no_exclude, &server), strings(&["auth", "shop", "blog"]));
    assert!(select_databases(&no_exclude, &Vec::new()).is_empty());
}

#[test]
fn system_schemas_are_recognised() {
    assert!(is_system_schema("sys"));
    assert!(is_system_schema("performance_schema"));
    assert!(!is_system_schema("system"));
    assert!(!is_system_schema(""));
}

#[test]
fn separate_tables_only_when_true() {
    assert!(separate_tables(&MySQLDumpConfig { separate_tables: Some(true) }));
    assert!(!separate_tables(&MySQLDumpConfig { separate_tables: Some(false) }));
    assert!(!separate_tables(&MySQLDumpConfig { separate_tables: None }));
}

#[test]
fn whole_database_target() {
    let t = database_target("/srv", "2024-01-02_03-04-05", "auth");
    assert_eq!(t.path, "/srv/2024-01-02_03-04-05-auth.sql");
    assert_eq!(t.directory, "/srv");
    assert_eq!(t.table, None);
    assert_eq!(
        mysqldump_args("/tmp/my.cnf", &t),
        strings(&["--defaults-file=/tmp/my.cnf", "--quick", "--single-transaction", "--result-file=/srv/2024-01-02_03-04-05-auth.sql", "auth"])
    );
}

#[test]
fn separate_tables_two_artifacts() {
    let cfg = MySQLDumpConfig { separate_tables: Some(true) };
    let tables = strings(&["users", "posts"]);
    let targets = plan_database_dump(&cfg, "/srv", "stamp", "blog", &tables);
    assert_eq!(targets.len(), 2);
    assert_eq!(targets[0].path, "/srv/stamp/blog/blog.users.sql");
    assert_eq!(targets[1].path, "/srv/stamp/blog/blog.posts.sql");
    assert_eq!(targets[0].directory, "/srv/stamp/blog");
    assert_eq!(
        mysqldump_args("/d.cnf", &targets[1]),
        strings(&["--defaults-file=/d.cnf", "--quick", "--single-transaction", "--result-file=/srv/stamp/blog/blog.posts.sql", "blog", "posts"])
    );
    let mut c = Catalog::new();
    for (i, t) in targets.iter().enumerate() {
        record_dump(&mut c, 10 + i as u128, "r1".to_string(), t.path.clone(), 5, 1_700_000_000).unwrap();
    }
    assert_eq!(c.len(), 2);
    for r in c.rows() {
        assert_eq!(r.backup_type, BackupKind::Dump);
        assert_eq!(r.base_uuid, None);
    }
}

#[test]
fn tables_ignored_without_separation() {
    let cfg = MySQLDumpConfig { separate_tables: Some(false) };
    let targets = plan_database_dump(&cfg, "/srv/", "stamp", "blog", &strings(&["users"]));
    assert_eq!(targets.len(), 1);
    assert_eq!(targets[0].path, "/srv/stamp-blog.sql");
}

#[test]
fn run_fails_only_when_every_dump_fails() {
    assert_eq!(dump_run_result(3, 0), Err(BackupError::AllTargetsFailed));
    assert_eq!(dump_run_result(3, 1), Ok(()));
    assert_eq!(dump_run_result(0, 0), Ok(()));
}

#[test]
fn dump_record_refuses_duplicates() {
    let mut c = Catalog::new();
    let row = record_dump(&mut c, 7, "r1".to_string(), "/a".to_string(), 1, 0).unwrap();
    assert_eq!(row.path, "/a");
    assert_eq!(row.backup_type, BackupKind::Dump);
    assert!(record_dump(&mut c, 7, "r1".to_string(), "/b".to_string(), 1, 0).is_err());
    assert!(record_dump(&mut c, 8, "r1".to_string(), "/a".to_string(), 1, 0).is_err());
    assert_eq!(c.len(), 1);
}
