//! The whole configuration: where backups go, how long they are kept, and
//! the services to back up.
use vstd::prelude::*;
use crate::mysql_config::{MySQLBackupType, MySQLConnectionConfig};
use crate::text::same_text;

verus! {

/// A configured service.
#[derive(Clone, Debug)]
pub enum ServiceConfigEnum {
    MySQL(MySQLConnectionConfig),
}

/// Where artifacts are written, and for how many days they are kept
/// (`None`: forever).
#[derive(Clone, Debug)]
pub struct BackupConfig {
    pub basedir: String,
    pub keep_last: Option<u64>,
}

/// The configuration: backup settings and the services by name. A valid
/// configuration names each service once.
#[derive(Clone, Debug)]
pub struct Config {
    pub backup: BackupConfig,
    pub services: Vec<(String, ServiceConfigEnum)>,
}

/// Why a service's configuration is refused.
#[derive(Clone, Copy, Debug, PartialEq, Eq, Structural)]
pub enum ConfigError {
    /// A defaults file is given together with a user name, password, host
    /// or socket.
    DefaultsFileConflict,
    /// A defaults file is given together with a port.
    PortWithDefaultsFile,
    /// Physical backups are selected on a platform that has no xtrabackup.
    XtraBackupUnsupported,
    /// Two services have the same name.
    DuplicateService,
}

/// Whether `c` selects physical backups.
pub open spec fn uses_xtrabackup(c: MySQLConnectionConfig) -> bool {
    c.backup matches Some(b) && b.backup_type is XtraBackup
}

/// The error of a MySQL service's configuration, if any; the rules are
/// applied in the order the variants of `ConfigError` are listed.
pub open spec fn mysql_config_error(c: MySQLConnectionConfig, on_windows: bool) -> Option<ConfigError> {
    if c.defaults_file is Some && (c.username is Some || c.password is Some || c.host is Some || c.socket is Some) {
        Some(ConfigError::DefaultsFileConflict)
    } else if c.defaults_file is Some && c.port is Some {
        Some(ConfigError::PortWithDefaultsFile)
    } else if uses_xtrabackup(c) && on_windows {
        Some(ConfigError::XtraBackupUnsupported)
    } else {
        None
    }
}

/// The error of a service's configuration, if any.
pub open spec fn service_error(s: ServiceConfigEnum, on_windows: bool) -> Option<ConfigError> {
    match s {
        ServiceConfigEnum::MySQL(c) => mysql_config_error(c, on_windows),
    }
}

/// Whether the service at index `i` has the name of an earlier one.
pub open spec fn name_repeated(s: Seq<(String, ServiceConfigEnum)>, i: int) -> bool {
    exists|j: int| 0 <= j < i && (#[trigger] s[j]).0@ == s[i].0@
}

/// The error of the service at index `i`: a repeated name, else the error
/// of its settings.
pub open spec fn entry_error(s: Seq<(String, ServiceConfigEnum)>, i: int, on_windows: bool) -> Option<ConfigError> {
    if name_repeated(s, i) {
        Some(ConfigError::DuplicateService)
    } else {
        service_error(s[i].1, on_windows)
    }
}

fn check_mysql(c: &MySQLConnectionConfig, on_windows: bool) -> (r: Option<ConfigError>)
    ensures
        r == mysql_config_error(*c, on_windows),
{
    if c.defaults_file.is_some() {
        if c.username.is_some() || c.password.is_some() || c.host.is_some() || c.socket.is_some() {
            return Some(ConfigError::DefaultsFileConflict);
        }
        if c.port.is_some() {
            return Some(ConfigError::PortWithDefaultsFile);
        }
    }
    if on_windows {
        if let Some(b) = &c.backup {
            if let MySQLBackupType::XtraBackup(_) = &b.backup_type {
                return Some(ConfigError::XtraBackupUnsupported);
            }
        }
    }
    None
}

impl Config {
    /// Checks every service in order and reports the first error found.
    /// `on_windows` tells whether the host platform is Windows.
    pub fn validate(&self, on_windows: bool) -> (r: Result<(), ConfigError>)
        ensures
            r is Ok <==> forall|i: int| 0 <= i < self.services@.len()
                ==> #[trigger] entry_error(self.services@, i, on_windows) is None,
            r matches Err(e) ==> exists|i: int| 0 <= i < self.services@.len()
                && entry_error(self.services@, i, on_windows) == Some(e)
                && forall|j: int| 0 <= j < i ==> #[trigger] entry_error(self.services@, j, on_windows) is None,
    {
        let mut i: usize = 0;
        while i < self.services.len()
            invariant
                i <= self.services@.len(),
                forall|j: int| 0 <= j < i ==> #[trigger] entry_error(self.services@, j, on_windows) is None,
            decreases self.services.len() - i,
        {
            let mut j: usize = 0;
            while j < i
                invariant
                    j <= i < self.services@.len(),
                    forall|m: int| 0 <= m < j ==> (#[trigger] self.services@[m]).0@ != self.services@[i as int].0@,
                    forall|m: int| 0 <= m < i ==> #[trigger] entry_error(self.services@, m, on_windows) is None,
                decreases i - j,
            {
                if same_text(self.services[j].0.as_str(), self.services[i].0.as_str()) {
                    assert(self.services@[j as int].0@ == self.services@[i as int].0@);
                    assert(name_repeated(self.services@, i as int));
                    assert(entry_error(self.services@, i as int, on_windows) == Some(ConfigError::DuplicateService));
                    return Err(ConfigError::DuplicateService);
                }
                j = j + 1;
            }
            assert(!name_repeated(self.services@, i as int));
            assert(entry_error(self.services@, i as int, on_windows) == service_error(self.services@[i as int].1, on_windows));
            match &self.services[i].1 {
                ServiceConfigEnum::MySQL(c) => {
                    if let Some(e) = check_mysql(c, on_windows) {
                        assert(entry_error(self.services@, i as int, on_windows) == Some(e));
                        return Err(e);
                    }
                },
            }
            i = i + 1;
        }
        Ok(())
    }
}

} // verus!
