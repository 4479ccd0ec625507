//! Logical dumps: which databases to dump, where each artifact goes, the
//! dump tool's arguments, and the rows recorded for the artifacts.
use vstd::prelude::*;
use crate::catalog::{BackupKind, Catalog, CatalogError, MysqlBackupRow, chain_ok, has_id, has_path, insert_position};
use crate::chain::lemma_chain_insert;
use crate::mysql_config::{MySQLBackupConfig, MySQLDumpConfig};
use crate::text::{cat_text, contains_text, copy_strings, joined, path_join, same_text, texts};

verus! {

/// The server's own schemas, never dumped when databases are discovered.
pub open spec fn system_schemas() -> Seq<Seq<char>> {
    seq!["information_schema"@, "mysql"@, "performance_schema"@, "sys"@]
}

/// Whether `name` is one of the server's own schemas.
pub fn is_system_schema(name: &str) -> (r: bool)
    ensures
        r == system_schemas().contains(name@),
{
    let r = same_text(name, "information_schema") || same_text(name, "mysql")
        || same_text(name, "performance_schema") || same_text(name, "sys");
    proof {
        let s = system_schemas();
        if r {
            if name@ == s[0] {
                assert(s.contains(name@));
            } else if name@ == s[1] {
                assert(s.contains(name@));
            } else if name@ == s[2] {
                assert(s.contains(name@));
            } else {
                assert(s[3] == name@);
                assert(s.contains(name@));
            }
        }
    }
    r
}

/// Whether the database list must be asked of the server: only when no
/// allow-list is configured.
pub open spec fn needs_server_list(cfg: MySQLBackupConfig) -> bool {
    cfg.databases is None
}

/// Whether `name` is on the configured exclude-list.
pub open spec fn excluded(cfg: MySQLBackupConfig, name: Seq<char>) -> bool {
    match cfg.databases_exclude {
        Some(x) => texts(x@).contains(name),
        None => false,
    }
}

/// Whether a database the server lists is dumped.
pub open spec fn discovered(cfg: MySQLBackupConfig, name: Seq<char>) -> bool {
    !excluded(cfg, name) && !system_schemas().contains(name)
}

/// The databases to dump: the allow-list when there is one; else the
/// server's databases less the exclude-list and the system schemas.
pub open spec fn selected_databases(cfg: MySQLBackupConfig, server: Seq<Seq<char>>) -> Seq<Seq<char>> {
    match cfg.databases {
        Some(l) => texts(l@),
        None => server.filter(|d: Seq<char>| discovered(cfg, d)),
    }
}

/// Whether the server must be asked for its databases.
pub fn needs_server_databases(cfg: &MySQLBackupConfig) -> (r: bool)
    ensures
        r == needs_server_list(*cfg),
{
    cfg.databases.is_none()
}

/// The databases to dump. `server` is the server's list, used only when
/// there is no allow-list.
pub fn select_databases(cfg: &MySQLBackupConfig, server: &Vec<String>) -> (r: Vec<String>)
    ensures
        texts(r@) == selected_databases(*cfg, texts(server@)),
{
    if let Some(l) = &cfg.databases {
        return copy_strings(l);
    }
    let ghost all = texts(server@);
    let ghost pred = |d: Seq<char>| discovered(*cfg, d);
    let mut out: Vec<String> = Vec::new();
    let mut i: usize = 0;
    while i < server.len()
        invariant
            i <= server@.len(),
            all == texts(server@),
            pred == (|d: Seq<char>| discovered(*cfg, d)),
            texts(out@) == all.take(i as int).filter(pred),
        decreases server.len() - i,
    {
        proof {
            reveal(Seq::filter);
            assert(all.take(i + 1).drop_last() =~= all.take(i as int));
            assert(all.take(i + 1).last() == server@[i as int]@);
        }
        let name = server[i].as_str();
        let skip = match &cfg.databases_exclude {
            Some(x) => contains_text(x, name),
            None => false,
        };
        if !skip && !is_system_schema(name) {
            out.push(server[i].clone());
            assert(texts(out@) =~= texts(out@).drop_last().push(server@[i as int]@));
        }
        i = i + 1;
    }
    assert(all.take(all.len() as int) =~= all);
    out
}

/// A configured allow-list decides alone: the server is not asked, the
/// exclude-list is not applied, and the server's list does not matter.
pub proof fn lemma_allow_list_decides(cfg: MySQLBackupConfig, server: Seq<Seq<char>>, other: Seq<Seq<char>>)
    requires
        cfg.databases is Some,
    ensures
        !needs_server_list(cfg),
        selected_databases(cfg, server) == texts(cfg.databases->0@),
        selected_databases(cfg, server) == selected_databases(cfg, other),
{
}

/// Whether tables are dumped one artifact each.
pub fn separate_tables(cfg: &MySQLDumpConfig) -> (r: bool)
    ensures
        r == (cfg.separate_tables == Some(true)),
{
    match cfg.separate_tables {
        Some(b) => b,
        None => false,
    }
}

/// The directory of the per-table artifacts of `db`: `<basedir>/<stamp>/<db>`.
pub open spec fn table_dir(basedir: Seq<char>, stamp: Seq<char>, db: Seq<char>) -> Seq<char> {
    joined(joined(basedir, stamp), db)
}

/// The artifact of one table: `<basedir>/<stamp>/<db>/<db>.<table>.sql`.
pub open spec fn table_path(basedir: Seq<char>, stamp: Seq<char>, db: Seq<char>, table: Seq<char>) -> Seq<char> {
    joined(table_dir(basedir, stamp, db), db + "."@ + table + ".sql"@)
}

/// The artifact of a whole database: `<basedir>/<stamp>-<db>.sql`.
pub open spec fn database_path(basedir: Seq<char>, stamp: Seq<char>, db: Seq<char>) -> Seq<char> {
    joined(basedir, stamp + "-"@ + db + ".sql"@)
}

/// One invocation of the dump tool: a database, or one table of it, and
/// the directory and file the artifact is written to.
#[derive(Debug)]
pub struct DumpTarget {
    pub database: String,
    pub table: Option<String>,
    pub directory: String,
    pub path: String,
}

/// The target that dumps all of `db` at once.
pub fn database_target(basedir: &str, stamp: &str, db: &str) -> (r: DumpTarget)
    ensures
        r.database@ == db@,
        r.table is None,
        r.directory@ == basedir@,
        r.path@ == database_path(basedir@, stamp@, db@),
{
    let name = cat_text(cat_text(cat_text(stamp, "-").as_str(), db).as_str(), ".sql");
    DumpTarget {
        database: String::from_str(db),
        table: None,
        directory: String::from_str(basedir),
        path: path_join(basedir, name.as_str()),
    }
}

/// The targets that dump each of `tables` of `db` separately, in order.
pub fn table_targets(basedir: &str, stamp: &str, db: &str, tables: &Vec<String>) -> (r: Vec<DumpTarget>)
    ensures
        r@.len() == tables@.len(),
        forall|i: int| 0 <= i < r@.len() ==> {
            &&& (#[trigger] r@[i]).database@ == db@
            &&& r@[i].table matches Some(t) && t@ == tables@[i]@
            &&& r@[i].directory@ == table_dir(basedir@, stamp@, db@)
            &&& r@[i].path@ == table_path(basedir@, stamp@, db@, tables@[i]@)
        },
{
    let dir = path_join(path_join(basedir, stamp).as_str(), db);
    let prefix = cat_text(db, ".");
    let mut out: Vec<DumpTarget> = Vec::new();
    let mut i: usize = 0;
    while i < tables.len()
        invariant
            i <= tables@.len(),
            dir@ == table_dir(basedir@, stamp@, db@),
            prefix@ == db@ + "."@,
            out@.len() == i,
            forall|k: int| 0 <= k < i ==> {
                &&& (#[trigger] out@[k]).database@ == db@
                &&& out@[k].table matches Some(t) && t@ == tables@[k]@
                &&& out@[k].directory@ == table_dir(basedir@, stamp@, db@)
                &&& out@[k].path@ == table_path(basedir@, stamp@, db@, tables@[k]@)
            },
        decreases tables.len() - i,
    {
        let file = cat_text(cat_text(prefix.as_str(), tables[i].as_str()).as_str(), ".sql");
        let t = DumpTarget {
            database: String::from_str(db),
            table: Some(tables[i].clone()),
            directory: dir.clone(),
            path: path_join(dir.as_str(), file.as_str()),
        };
        out.push(t);
        i = i + 1;
    }
    out
}

/// The targets for `db`: one per table when tables are dumped separately
/// (`tables` being the database's tables), else one for the database.
pub fn plan_database_dump(cfg: &MySQLDumpConfig, basedir: &str, stamp: &str, db: &str, tables: &Vec<String>) -> (r: Vec<DumpTarget>)
    ensures
        cfg.separate_tables == Some(true) ==> r@.len() == tables@.len() && forall|i: int| 0 <= i < r@.len() ==> {
            &&& (#[trigger] r@[i]).database@ == db@
            &&& r@[i].table matches Some(t) && t@ == tables@[i]@
            &&& r@[i].directory@ == table_dir(basedir@, stamp@, db@)
            &&& r@[i].path@ == table_path(basedir@, stamp@, db@, tables@[i]@)
        },
        cfg.separate_tables != Some(true) ==> r@.len() == 1 && {
            &&& r@[0].database@ == db@
            &&& r@[0].table is None
            &&& r@[0].directory@ == basedir@
            &&& r@[0].path@ == database_path(basedir@, stamp@, db@)
        },
{
    if separate_tables(cfg) {
        table_targets(basedir, stamp, db, tables)
    } else {
        let mut v: Vec<DumpTarget> = Vec::new();
        v.push(database_target(basedir, stamp, db));
        v
    }
}

/// The dump tool's arguments for one target.
pub open spec fn dump_args(defaults_path: Seq<char>, path: Seq<char>, db: Seq<char>, table: Option<Seq<char>>) -> Seq<Seq<char>> {
    let common = seq![
        "--defaults-file="@ + defaults_path,
        "--quick"@,
        "--single-transaction"@,
        "--result-file="@ + path,
        db,
    ];
    match table {
        Some(t) => common.push(t),
        None => common,
    }
}

/// The text of an optional string.
pub open spec fn opt_text(o: Option<String>) -> Option<Seq<char>> {
    match o {
        Some(s) => Some(s@),
        None => None,
    }
}

/// The arguments that make the dump tool write `target`, reading the
/// connection settings from `defaults_path`.
pub fn mysqldump_args(defaults_path: &str, target: &DumpTarget) -> (r: Vec<String>)
    ensures
        texts(r@) == dump_args(defaults_path@, target.path@, target.database@, opt_text(target.table)),
{
    let mut r: Vec<String> = Vec::new();
    r.push(cat_text("--defaults-file=", defaults_path));
    r.push(String::from_str("--quick"));
    r.push(String::from_str("--single-transaction"));
    r.push(cat_text("--result-file=", target.path.as_str()));
    r.push(target.database.clone());
    if let Some(t) = &target.table {
        r.push(t.clone());
    }
    assert(texts(r@) =~= dump_args(defaults_path@, target.path@, target.database@, opt_text(target.table)));
    r
}

/// The row of a dump artifact.
pub open spec fn dump_row(uuid: u128, service: String, path: String, size: u64, created_at: i64) -> MysqlBackupRow {
    MysqlBackupRow {
        uuid,
        base_uuid: None,
        backup_type: BackupKind::Dump,
        service,
        path,
        size,
        created_at,
    }
}

/// Records a dump artifact of `service` at its place by identifier: a row
/// of kind `Dump` with no base, which is returned. Refused, leaving the
/// catalog unchanged, when its identifier or path is already recorded.
pub fn record_dump(catalog: &mut Catalog, uuid: u128, service: String, path: String, size: u64, created_at: i64) -> (r: Result<MysqlBackupRow, CatalogError>)
    requires
        old(catalog).wf(),
    ensures
        final(catalog).wf(),
        r is Ok <==> !has_id(old(catalog)@, uuid) && !has_path(old(catalog)@, path@),
        r == Err::<MysqlBackupRow, CatalogError>(CatalogError::DuplicateId) <==> has_id(old(catalog)@, uuid),
        r == Err::<MysqlBackupRow, CatalogError>(CatalogError::DuplicatePath)
            <==> !has_id(old(catalog)@, uuid) && has_path(old(catalog)@, path@),
        r is Err ==> final(catalog)@ == old(catalog)@,
        r matches Ok(x) ==> x == dump_row(uuid, service, path, size, created_at) && exists|k: int|
            insert_position(old(catalog)@, uuid, k) && final(catalog)@ == old(catalog)@.insert(k, x),
        chain_ok(old(catalog)@) ==> chain_ok(final(catalog)@),
{
    let ghost s = catalog@;
    let row = MysqlBackupRow {
        uuid,
        base_uuid: None,
        backup_type: BackupKind::Dump,
        service,
        path,
        size,
        created_at,
    };
    let copy = row.copy_row();
    match catalog.insert(row) {
        Ok(()) => {
            proof {
                let k = choose|k: int| insert_position(s, copy.uuid, k) && catalog@ == s.insert(k, copy);
                if chain_ok(s) {
                    lemma_chain_insert(s, k, copy);
                }
            }
            Ok(copy)
        },
        Err(e) => Err(e),
    }
}

/// Why a backup run failed.
#[derive(Clone, Copy, Debug, PartialEq, Eq, Structural)]
pub enum BackupError {
    /// Every dump of the run failed.
    AllTargetsFailed,
    /// The backup tool failed.
    ToolFailed,
    /// The catalog refused the artifact's row.
    Catalog(CatalogError),
}

/// The outcome of a dump run in which `succeeded` of `attempted` dumps
/// succeeded: failures of some targets are tolerated, failure of all is not.
pub fn dump_run_result(attempted: usize, succeeded: usize) -> (r: Result<(), BackupError>)
    ensures
        r is Err <==> attempted > 0 && succeeded == 0,
        r is Err ==> r == Err::<(), BackupError>(BackupError::AllTargetsFailed),
{
    if attempted > 0 && succeeded == 0 {
        Err(BackupError::AllTargetsFailed)
    } else {
        Ok(())
    }
}

} // verus!
