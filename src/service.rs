//! A configured MySQL service: its run guard, what one run does, and its
//! registration with the scheduler.
use vstd::prelude::*;
use crate::catalog::BackupKind;
use crate::config::BackupConfig;
use crate::mysql_config::{MySQLBackupType, MySQLConnectionConfig};
use crate::retention::{cutoff_of, retention_cutoff};
use crate::schedule::{Scheduler, ScheduleError, cron_accepts};

verus! {

/// One service: its configuration, the global backup settings, and whether
/// a run of it is in progress.
pub struct MySQLService {
    pub backup_config: BackupConfig,
    pub config: MySQLConnectionConfig,
    pub running: bool,
}

/// Trying to start a run from guard state `running`: whether the run may
/// start, and the guard state afterwards.
pub open spec fn acquire(running: bool) -> (bool, bool) {
    (!running, true)
}

/// How many of `n` triggers that arrive with no run finishing in between
/// start a run, from guard state `running`.
pub open spec fn runs_started(running: bool, n: nat) -> nat
    decreases n,
{
    if n == 0 {
        0
    } else {
        let (granted, next) = acquire(running);
        (if granted { 1nat } else { 0nat }) + runs_started(next, (n - 1) as nat)
    }
}

/// Triggers that arrive while a run is in progress are skipped: of any
/// number of triggers with no run finishing in between, at most one starts
/// a run, and exactly one when the service was idle.
pub proof fn lemma_single_flight(running: bool, n: nat)
    ensures
        runs_started(running, n) == (if !running && n > 0 { 1nat } else { 0nat }),
    decreases n,
{
    if n > 0 {
        lemma_single_flight(true, (n - 1) as nat);
    }
}

/// What one run does: the retention cutoff to prune before, if any, and
/// the kind of backup to make, if any.
#[derive(Clone, Copy, Debug, PartialEq, Eq, Structural)]
pub struct RunPlan {
    pub prune_before: Option<i128>,
    pub backup: Option<BackupKind>,
}

/// The kind of artifact a backup method produces.
pub open spec fn kind_of(t: MySQLBackupType) -> BackupKind {
    match t {
        MySQLBackupType::XtraBackup(_) => BackupKind::Incremental,
        MySQLBackupType::MySqlDump(_) => BackupKind::Dump,
    }
}

impl MySQLService {
    /// An idle service.
    pub fn new(config: MySQLConnectionConfig, backup_config: BackupConfig) -> (r: MySQLService)
        ensures
            r.config == config,
            r.backup_config == backup_config,
            !r.running,
    {
        MySQLService { backup_config, config, running: false }
    }

    /// Starts a run unless one is in progress; returns whether it started.
    pub fn try_set_running(&mut self) -> (r: bool)
        ensures
            (r, final(self).running) == acquire(old(self).running),
            final(self).config == old(self).config,
            final(self).backup_config == old(self).backup_config,
    {
        if self.running {
            false
        } else {
            self.running = true;
            true
        }
    }

    /// Sets the guard; a finished run sets it to `false`.
    pub fn set_running(&mut self, value: bool)
        ensures
            final(self).running == value,
            final(self).config == old(self).config,
            final(self).backup_config == old(self).backup_config,
    {
        self.running = value;
    }

    /// What a run started at `now` does: nothing without backup settings;
    /// else prune first when a retention window is set, then back up by the
    /// configured method.
    pub fn run_plan(&self, now: i64) -> (r: RunPlan)
        ensures
            self.config.backup is None ==> r == (RunPlan { prune_before: None, backup: None }),
            self.config.backup matches Some(b) ==> r.backup == Some(kind_of(b.backup_type)),
            self.config.backup is Some && self.backup_config.keep_last is None ==> r.prune_before is None,
            self.config.backup is Some ==> (self.backup_config.keep_last matches Some(k)
                ==> r.prune_before == Some(cutoff_of(now as int, k as int) as i128)),
    {
        match &self.config.backup {
            None => RunPlan { prune_before: None, backup: None },
            Some(b) => {
                let prune_before = match self.backup_config.keep_last {
                    Some(k) => Some(retention_cutoff(now, k)),
                    None => None,
                };
                let backup = match &b.backup_type {
                    MySQLBackupType::XtraBackup(_) => BackupKind::Incremental,
                    MySQLBackupType::MySqlDump(_) => BackupKind::Dump,
                };
                RunPlan { prune_before, backup: Some(backup) }
            },
        }
    }

    /// Registers this service with `sched` under `service_name`, on the
    /// schedule of its backup settings; a service without backup settings
    /// is not registered.
    pub fn schedule(&self, sched: &mut Scheduler, service_name: &str) -> (r: Result<(), ScheduleError>)
        ensures
            self.config.backup is None ==> r is Ok && final(sched)@ == old(sched)@,
            self.config.backup matches Some(b) ==> {
                &&& (r is Ok <==> cron_accepts(b.interval@))
                &&& r is Ok ==> final(sched)@ == old(sched)@.push((service_name@, b.interval@))
                &&& r is Err ==> final(sched)@ == old(sched)@
            },
    {
        match &self.config.backup {
            None => Ok(()),
            Some(b) => sched.register(service_name, b.interval.as_str()),
        }
    }
}

} // verus!
