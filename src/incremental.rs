//! Physical backups: where a run writes, which earlier backup of the same
//! day it builds on, the backup tool's arguments, and the row recorded for
//! the artifact.
use vstd::prelude::*;
use crate::catalog::{
    BackupKind, Catalog, CatalogError, MysqlBackupRow, chain_base, chain_ok, day_number, day_of, has_id, has_path,
    in_query, insert_position, latest,
};
use crate::chain::lemma_chain_insert;
use crate::dump::BackupError;
use crate::mysql_config::{MySQLBackupConfig, XtraBackupConfig};
use crate::text::{cat_text, decimal, decimal_text, join_spaced, joined, path_join, spaced, texts};

verus! {

/// The canonical hyphenated text of the identifier `id`.
pub uninterp spec fn uuid_text(id: u128) -> Seq<char>;

/// Relies on uuid's `Uuid::from_u128` and its hyphenated formatting: the
/// text depends on the value alone, and is the value's 32 hexadecimal
/// digits with hyphens, so no other value has the same text.
#[verifier::external_body]
fn uuid_string(id: u128) -> (r: String)
    ensures
        r@ == uuid_text(id),
        forall|other: u128| uuid_text(other) == r@ ==> other == id,
{
    uuid::Uuid::from_u128(id).hyphenated().to_string()
}

/// The directory of run `id`: `<basedir>/<date>/<run id>`.
pub open spec fn run_dir(basedir: Seq<char>, date: Seq<char>, id: u128) -> Seq<char> {
    joined(joined(basedir, date), uuid_text(id))
}

/// The directory of one run: `<basedir>/<date>/<name>`.
pub open spec fn run_dir_named(basedir: Seq<char>, date: Seq<char>, name: Seq<char>) -> Seq<char> {
    joined(joined(basedir, date), name)
}

/// What a run of `service` at `now` builds on: the service's last physical
/// backup of the same day, if any.
pub open spec fn run_base(catalog: Seq<MysqlBackupRow>, service: Seq<char>, now: int) -> Option<MysqlBackupRow> {
    latest(catalog, service, BackupKind::Incremental, day_of(now))
}

/// The optional arguments, in order: parallelism, excluded databases,
/// included databases, and the base to build on.
pub open spec fn optional_args(
    parallel: Option<u8>,
    exclude: Option<Seq<Seq<char>>>,
    only: Option<Seq<Seq<char>>>,
    base_dir: Option<Seq<char>>,
) -> Seq<Seq<char>> {
    let a = match parallel {
        Some(n) => seq!["--parallel="@ + decimal(n as nat)],
        None => Seq::empty(),
    };
    let b = match exclude {
        Some(x) => seq!["--databases-exclude="@ + spaced(x)],
        None => Seq::empty(),
    };
    let c = match only {
        Some(x) => seq!["--databases="@ + spaced(x)],
        None => Seq::empty(),
    };
    let d = match base_dir {
        Some(p) => seq!["--incremental-basedir="@ + p],
        None => Seq::empty(),
    };
    a + b + c + d
}

/// The backup tool's arguments.
pub open spec fn xtrabackup_args(
    defaults_path: Seq<char>,
    parallel: Option<u8>,
    exclude: Option<Seq<Seq<char>>>,
    only: Option<Seq<Seq<char>>>,
    base_dir: Option<Seq<char>>,
    target_dir: Seq<char>,
) -> Seq<Seq<char>> {
    seq!["--defaults-file="@ + defaults_path, "--backup"@]
        + optional_args(parallel, exclude, only, base_dir)
        + seq!["--target-dir="@ + target_dir]
}

/// The text of the strings of an optional list.
pub open spec fn opt_texts(o: Option<Vec<String>>) -> Option<Seq<Seq<char>>> {
    match o {
        Some(v) => Some(texts(v@)),
        None => None,
    }
}

/// The path of an optional row.
pub open spec fn opt_path(o: Option<MysqlBackupRow>) -> Option<Seq<char>> {
    match o {
        Some(r) => Some(r.path@),
        None => None,
    }
}

/// The identifier of an optional row.
pub open spec fn opt_uuid(o: Option<MysqlBackupRow>) -> Option<u128> {
    match o {
        Some(r) => Some(r.uuid),
        None => None,
    }
}

/// One physical backup run, decided before the tool runs.
#[derive(Debug)]
pub struct XtraBackupPlan {
    pub uuid: u128,
    pub service: String,
    pub base_uuid: Option<u128>,
    pub target_dir: String,
    pub args: Vec<String>,
    pub created_at: i64,
}

/// Why a run could not be planned.
#[derive(Clone, Copy, Debug, PartialEq, Eq, Structural)]
pub enum PlanError {
    /// The run's directory is already the path of a recorded artifact.
    TargetInUse,
}

/// Plans run `uuid` of `service` at `now`, writing to
/// `<basedir>/<date>/<dir_name>` and building on the service's last
/// physical backup of the same day, if there is one. Refused when that
/// directory already holds a recorded artifact, so no run writes over an
/// earlier one, its base included.
pub fn plan_xtrabackup_in(
    catalog: &Catalog,
    service: &str,
    basedir: &str,
    date: &str,
    dir_name: &str,
    cfg: &XtraBackupConfig,
    backup: &MySQLBackupConfig,
    defaults_path: &str,
    uuid: u128,
    now: i64,
) -> (r: Result<XtraBackupPlan, PlanError>)
    ensures
        r is Err <==> has_path(catalog@, run_dir_named(basedir@, date@, dir_name@)),
        r is Err ==> r == Err::<XtraBackupPlan, PlanError>(PlanError::TargetInUse),
        r matches Ok(p) ==> {
            &&& p.uuid == uuid
            &&& p.service@ == service@
            &&& p.created_at == now
            &&& p.target_dir@ == run_dir_named(basedir@, date@, dir_name@)
            &&& p.base_uuid == opt_uuid(run_base(catalog@, service@, now as int))
            &&& texts(p.args@) == xtrabackup_args(
                defaults_path@,
                cfg.parallel_threads,
                opt_texts(backup.databases_exclude),
                opt_texts(backup.databases),
                opt_path(run_base(catalog@, service@, now as int)),
                p.target_dir@,
            )
        },
{
    let root = path_join(basedir, date);
    let target_dir = path_join(root.as_str(), dir_name);
    if catalog.has_path_text(target_dir.as_str()) {
        return Err(PlanError::TargetInUse);
    }
    let base = catalog.find_latest(service, BackupKind::Incremental, day_number(now));
    let mut args: Vec<String> = Vec::new();
    args.push(cat_text("--defaults-file=", defaults_path));
    args.push(String::from_str("--backup"));
    if let Some(n) = cfg.parallel_threads {
        args.push(cat_text("--parallel=", decimal_text(n as u64).as_str()));
    }
    if let Some(x) = &backup.databases_exclude {
        args.push(cat_text("--databases-exclude=", join_spaced(x).as_str()));
    }
    if let Some(x) = &backup.databases {
        args.push(cat_text("--databases=", join_spaced(x).as_str()));
    }
    let base_uuid = match &base {
        Some(b) => {
            args.push(cat_text("--incremental-basedir=", b.path.as_str()));
            Some(b.uuid)
        },
        None => None,
    };
    args.push(cat_text("--target-dir=", target_dir.as_str()));
    assert(texts(args@) =~= xtrabackup_args(
        defaults_path@,
        cfg.parallel_threads,
        opt_texts(backup.databases_exclude),
        opt_texts(backup.databases),
        opt_path(base),
        target_dir@,
    ));
    Ok(XtraBackupPlan { uuid, service: String::from_str(service), base_uuid, target_dir, args, created_at: now })
}

/// Plans run `uuid` of `service` at `now`, writing to
/// `<basedir>/<date>/<run id>`; as `plan_xtrabackup_in`.
pub fn plan_xtrabackup(
    catalog: &Catalog,
    service: &str,
    basedir: &str,
    date: &str,
    cfg: &XtraBackupConfig,
    backup: &MySQLBackupConfig,
    defaults_path: &str,
    uuid: u128,
    now: i64,
) -> (r: Result<XtraBackupPlan, PlanError>)
    ensures
        r is Err <==> has_path(catalog@, run_dir(basedir@, date@, uuid)),
        r is Err ==> r == Err::<XtraBackupPlan, PlanError>(PlanError::TargetInUse),
        r matches Ok(p) ==> {
            &&& p.uuid == uuid
            &&& p.service@ == service@
            &&& p.created_at == now
            &&& p.target_dir@ == run_dir(basedir@, date@, uuid)
            &&& p.base_uuid == opt_uuid(run_base(catalog@, service@, now as int))
            &&& texts(p.args@) == xtrabackup_args(
                defaults_path@,
                cfg.parallel_threads,
                opt_texts(backup.databases_exclude),
                opt_texts(backup.databases),
                opt_path(run_base(catalog@, service@, now as int)),
                p.target_dir@,
            )
        },
{
    let name = uuid_string(uuid);
    plan_xtrabackup_in(catalog, service, basedir, date, name.as_str(), cfg, backup, defaults_path, uuid, now)
}

/// Two runs of different identifiers under the same base directory and
/// date write to different directories.
pub proof fn lemma_run_dirs_differ(basedir: Seq<char>, date: Seq<char>, a: u128, b: u128)
    requires
        a != b,
        forall|other: u128| uuid_text(other) == uuid_text(a) ==> other == a,
    ensures
        run_dir(basedir, date, a) != run_dir(basedir, date, b),
{
    let p = joined(basedir, date);
    if run_dir(basedir, date, a) == run_dir(basedir, date, b) {
        let ta = uuid_text(a);
        let tb = uuid_text(b);
        if p.len() == 0 {
            assert(ta == tb);
        } else if p.last() == '/' {
            assert((p + ta).subrange(p.len() as int, (p + ta).len() as int) =~= ta);
            assert((p + tb).subrange(p.len() as int, (p + tb).len() as int) =~= tb);
        } else {
            let q = p + seq!['/'];
            assert(p + seq!['/'] + ta =~= q + ta);
            assert(p + seq!['/'] + tb =~= q + tb);
            assert((q + ta).subrange(q.len() as int, (q + ta).len() as int) =~= ta);
            assert((q + tb).subrange(q.len() as int, (q + tb).len() as int) =~= tb);
        }
    }
}

/// The row of the artifact of `plan`, of size `size`.
pub open spec fn plan_row(plan: XtraBackupPlan, size: u64) -> MysqlBackupRow {
    MysqlBackupRow {
        uuid: plan.uuid,
        base_uuid: plan.base_uuid,
        backup_type: BackupKind::Incremental,
        service: plan.service,
        path: plan.target_dir,
        size,
        created_at: plan.created_at,
    }
}

/// No incremental row of `service` on `day` has an identifier above `id`.
pub open spec fn newest_of_day(s: Seq<MysqlBackupRow>, service: Seq<char>, day: int, id: u128) -> bool {
    forall|j: int| 0 <= j < s.len() && in_query(#[trigger] s[j], service, BackupKind::Incremental, day) ==> s[j].uuid < id
}

/// Records the artifact of a finished run at its place by identifier and
/// returns the recorded row. Refused, leaving the catalog unchanged, when
/// its identifier or directory is already recorded. When the plan's base
/// is still the chain base of its service and day, and the run is the
/// newest of them, incremental rows stay linked each to its predecessor.
pub fn record_incremental(catalog: &mut Catalog, plan: XtraBackupPlan, size: u64) -> (r: Result<MysqlBackupRow, CatalogError>)
    requires
        old(catalog).wf(),
    ensures
        final(catalog).wf(),
        r is Ok <==> !has_id(old(catalog)@, plan.uuid) && !has_path(old(catalog)@, plan.target_dir@),
        r == Err::<MysqlBackupRow, CatalogError>(CatalogError::DuplicateId) <==> has_id(old(catalog)@, plan.uuid),
        r == Err::<MysqlBackupRow, CatalogError>(CatalogError::DuplicatePath)
            <==> !has_id(old(catalog)@, plan.uuid) && has_path(old(catalog)@, plan.target_dir@),
        r is Err ==> final(catalog)@ == old(catalog)@,
        r matches Ok(x) ==> x == plan_row(plan, size) && exists|k: int|
            insert_position(old(catalog)@, plan.uuid, k) && final(catalog)@ == old(catalog)@.insert(k, x),
        chain_ok(old(catalog)@)
            && plan.base_uuid == chain_base(old(catalog)@, plan.service@, day_of(plan.created_at as int))
            && newest_of_day(old(catalog)@, plan.service@, day_of(plan.created_at as int), plan.uuid)
            ==> chain_ok(final(catalog)@),
{
    let ghost s = catalog@;
    let ghost expected = plan_row(plan, size);
    let row = MysqlBackupRow {
        uuid: plan.uuid,
        base_uuid: plan.base_uuid,
        backup_type: BackupKind::Incremental,
        service: plan.service,
        path: plan.target_dir,
        size,
        created_at: plan.created_at,
    };
    assert(row == expected);
    let copy = row.copy_row();
    match catalog.insert(row) {
        Ok(()) => {
            proof {
                let k = choose|k: int| insert_position(s, copy.uuid, k) && catalog@ == s.insert(k, copy);
                let day = day_of(copy.created_at as int);
                if chain_ok(s) && copy.base_uuid == chain_base(s, copy.service@, day)
                    && newest_of_day(s, copy.service@, day, copy.uuid) {
                    assert forall|j: int| k <= j < s.len()
                        implies !in_query(#[trigger] s[j], copy.service@, BackupKind::Incremental, day) by {
                        assert(s[j].uuid > copy.uuid);
                    }
                    lemma_chain_insert(s, k, copy);
                }
            }
            Ok(copy)
        },
        Err(e) => Err(e),
    }
}

/// The outcome of a physical backup whose tool exited successfully or not:
/// a failure of the tool fails the run.
pub fn xtrabackup_result(success: bool) -> (r: Result<(), BackupError>)
    ensures
        r is Ok <==> success,
        r is Err ==> r == Err::<(), BackupError>(BackupError::ToolFailed),
{
    if success {
        Ok(())
    } else {
        Err(BackupError::ToolFailed)
    }
}

} // verus!
