//! Configuration of one MySQL service and of its backup method.
use vstd::prelude::*;

verus! {

/// Settings of chained physical backups. Physical backups always chain
/// within a day; these settings are read but do not change that.
#[derive(Clone, Debug)]
pub struct XtraBackupIncrementalConfig {
    pub enabled: bool,
    pub basedir: String,
}

/// Physical backups made with xtrabackup.
#[derive(Clone, Debug)]
pub struct XtraBackupConfig {
    pub incremental: Option<XtraBackupIncrementalConfig>,
    pub parallel_threads: Option<u8>,
    pub use_memory: Option<u32>,
}

/// Logical dumps made with mysqldump.
#[derive(Clone, Debug)]
pub struct MySQLDumpConfig {
    pub separate_tables: Option<bool>,
}

/// The backup method of a service.
#[derive(Clone, Debug)]
pub enum MySQLBackupType {
    XtraBackup(XtraBackupConfig),
    MySqlDump(MySQLDumpConfig),
}

/// What to back up, how, and on which schedule.
#[derive(Clone, Debug)]
pub struct MySQLBackupConfig {
    pub backup_type: MySQLBackupType,
    pub databases: Option<Vec<String>>,
    pub databases_exclude: Option<Vec<String>>,
    pub interval: String,
}

/// How to reach a MySQL server, and its backup settings. Either the
/// explicit connection fields or `defaults_file` is used, not both.
#[derive(Clone, Debug)]
pub struct MySQLConnectionConfig {
    pub host: Option<String>,
    pub port: Option<u16>,
    pub username: Option<String>,
    pub password: Option<String>,
    pub socket: Option<String>,
    pub defaults_file: Option<String>,
    pub backup: Option<MySQLBackupConfig>,
}

} // verus!
