//! The backup catalog: one row per artifact, ordered by identifier, with the
//! queries that chaining and retention need.
use vstd::prelude::*;
use vstd::arithmetic::div_mod::lemma_fundamental_div_mod_converse;
use crate::text::same_text;

verus! {

/// Seconds in a calendar day.
pub const SECONDS_PER_DAY: i64 = 86400;

/// What produced an artifact. Stored as 0 for a dump and 1 for a physical
/// (incremental) backup.
#[derive(Clone, Copy, Debug, PartialEq, Eq, Structural)]
pub enum BackupKind {
    Dump,
    Incremental,
}

impl BackupKind {
    pub open spec fn spec_code(self) -> u8 {
        match self {
            BackupKind::Dump => 0,
            BackupKind::Incremental => 1,
        }
    }

    /// The stored code of this kind.
    pub fn code(&self) -> (r: u8)
        ensures
            r == self.spec_code(),
    {
        match self {
            BackupKind::Dump => 0,
            BackupKind::Incremental => 1,
        }
    }

    /// The kind with the stored code `c`, if there is one.
    pub fn from_code(c: u8) -> (r: Option<BackupKind>)
        ensures
            r matches Some(k) ==> k.spec_code() == c,
            r is None <==> c > 1,
    {
        if c == 0 {
            Some(BackupKind::Dump)
        } else if c == 1 {
            Some(BackupKind::Incremental)
        } else {
            None
        }
    }
}

/// One catalog row. `created_at` is in seconds since the Unix epoch, UTC.
#[derive(Debug)]
pub struct MysqlBackupRow {
    pub uuid: u128,
    pub base_uuid: Option<u128>,
    pub backup_type: BackupKind,
    pub service: String,
    pub path: String,
    pub size: u64,
    pub created_at: i64,
}

impl MysqlBackupRow {
    /// A copy of this row.
    pub fn copy_row(&self) -> (r: MysqlBackupRow)
        ensures
            r == *self,
    {
        MysqlBackupRow {
            uuid: self.uuid,
            base_uuid: self.base_uuid,
            backup_type: self.backup_type,
            service: self.service.clone(),
            path: self.path.clone(),
            size: self.size,
            created_at: self.created_at,
        }
    }
}

/// The calendar day (days since the epoch, UTC) of timestamp `t`.
pub open spec fn day_of(t: int) -> int {
    t / (SECONDS_PER_DAY as int)
}

/// The calendar day of timestamp `t`.
pub fn day_number(t: i64) -> (r: i64)
    ensures
        r == day_of(t as int),
{
    if t >= 0 {
        t / SECONDS_PER_DAY
    } else {
        let m: i64 = -(t + 1);
        let q: i64 = m / SECONDS_PER_DAY;
        proof {
            let rem = m as int % 86400;
            lemma_fundamental_div_mod_converse(m as int, 86400, q as int, rem);
            lemma_fundamental_div_mod_converse(t as int, 86400, -q - 1, 86400 - rem - 1);
        }
        -q - 1
    }
}

/// Whether `r` belongs to `service`, is of `kind`, and was created on `day`.
pub open spec fn in_query(r: MysqlBackupRow, service: Seq<char>, kind: BackupKind, day: int) -> bool {
    &&& r.service@ == service
    &&& r.backup_type == kind
    &&& day_of(r.created_at as int) == day
}

/// The last row of `s` that `in_query` selects.
pub open spec fn latest(s: Seq<MysqlBackupRow>, service: Seq<char>, kind: BackupKind, day: int) -> Option<MysqlBackupRow>
    decreases s.len(),
{
    if s.len() == 0 {
        None
    } else if in_query(s.last(), service, kind, day) {
        Some(s.last())
    } else {
        latest(s.drop_last(), service, kind, day)
    }
}

/// The base that a physical backup of `service` on `day` chains onto: the
/// identifier of the service's last incremental row of that day.
pub open spec fn chain_base(s: Seq<MysqlBackupRow>, service: Seq<char>, day: int) -> Option<u128> {
    match latest(s, service, BackupKind::Incremental, day) {
        Some(r) => Some(r.uuid),
        None => None,
    }
}

/// Every incremental row names as its base the row that was the chain base
/// when it was recorded.
pub open spec fn chain_ok(s: Seq<MysqlBackupRow>) -> bool {
    forall|i: int|
        0 <= i < s.len() && (#[trigger] s[i]).backup_type == BackupKind::Incremental
            ==> s[i].base_uuid == chain_base(s.take(i), s[i].service@, day_of(s[i].created_at as int))
}

/// Identifiers strictly increase along `s`.
pub open spec fn ids_increasing(s: Seq<MysqlBackupRow>) -> bool {
    forall|i: int, j: int| 0 <= i < j < s.len() ==> s[i].uuid < s[j].uuid
}

/// Every identifier in `s` is below `id`.
pub open spec fn all_below(s: Seq<MysqlBackupRow>, id: u128) -> bool {
    forall|i: int| 0 <= i < s.len() ==> (#[trigger] s[i]).uuid < id
}

/// No two rows of `s` have the same path.
pub open spec fn paths_unique(s: Seq<MysqlBackupRow>) -> bool {
    forall|i: int, j: int| 0 <= i < j < s.len() ==> s[i].path@ != s[j].path@
}

/// Some row of `s` has identifier `id`.
pub open spec fn has_id(s: Seq<MysqlBackupRow>, id: u128) -> bool {
    exists|i: int| 0 <= i < s.len() && (#[trigger] s[i]).uuid == id
}

/// Some row of `s` has path `path`.
pub open spec fn has_path(s: Seq<MysqlBackupRow>, path: Seq<char>) -> bool {
    exists|i: int| 0 <= i < s.len() && (#[trigger] s[i]).path@ == path
}

/// `k` is where a row with identifier `id` goes in `s`: after every row
/// with a smaller identifier and before every row with a greater one.
pub open spec fn insert_position(s: Seq<MysqlBackupRow>, id: u128, k: int) -> bool {
    &&& 0 <= k <= s.len()
    &&& forall|j: int| 0 <= j < k ==> (#[trigger] s[j]).uuid < id
    &&& forall|j: int| k <= j < s.len() ==> (#[trigger] s[j]).uuid > id
}

/// Whether `r` was created before `cutoff`.
pub open spec fn created_before(r: MysqlBackupRow, cutoff: int) -> bool {
    r.created_at < cutoff
}

/// The rows of `s` created before `cutoff`, in order.
pub open spec fn rows_before(s: Seq<MysqlBackupRow>, cutoff: int) -> Seq<MysqlBackupRow> {
    s.filter(|r: MysqlBackupRow| created_before(r, cutoff))
}

/// The rows of `s` created at or after `cutoff`, in order.
pub open spec fn rows_from(s: Seq<MysqlBackupRow>, cutoff: int) -> Seq<MysqlBackupRow> {
    s.filter(|r: MysqlBackupRow| !created_before(r, cutoff))
}

/// Why the catalog refused a row.
#[derive(Clone, Copy, Debug, PartialEq, Eq, Structural)]
pub enum CatalogError {
    /// A row with the same identifier is already recorded.
    DuplicateId,
    /// A row with the same path is already recorded.
    DuplicatePath,
}

/// The rows of all artifacts, in increasing identifier order, each with its
/// own path.
pub struct Catalog {
    rows: Vec<MysqlBackupRow>,
}

impl View for Catalog {
    type V = Seq<MysqlBackupRow>;

    closed spec fn view(&self) -> Seq<MysqlBackupRow> {
        self.rows@
    }
}

impl Catalog {
    /// The catalog's invariant: identifiers increase with the order of
    /// rows, and no two rows share a path.
    pub open spec fn wf(&self) -> bool {
        ids_increasing(self@) && paths_unique(self@)
    }

    /// An empty catalog.
    pub fn new() -> (r: Catalog)
        ensures
            r@ == Seq::<MysqlBackupRow>::empty(),
            r.wf(),
    {
        Catalog { rows: Vec::new() }
    }

    /// The rows, oldest identifier first.
    pub fn rows(&self) -> (r: &Vec<MysqlBackupRow>)
        ensures
            r@ == self@,
    {
        &self.rows
    }

    /// The number of rows.
    pub fn len(&self) -> (r: usize)
        ensures
            r == self@.len(),
    {
        self.rows.len()
    }

    /// Records `row` at its place by identifier. Refused, leaving the
    /// catalog unchanged, when a row with the same identifier or the same
    /// path is already recorded.
    pub fn insert(&mut self, row: MysqlBackupRow) -> (r: Result<(), CatalogError>)
        requires
            old(self).wf(),
        ensures
            final(self).wf(),
            r is Ok <==> !has_id(old(self)@, row.uuid) && !has_path(old(self)@, row.path@),
            r == Err::<(), CatalogError>(CatalogError::DuplicateId) <==> has_id(old(self)@, row.uuid),
            r == Err::<(), CatalogError>(CatalogError::DuplicatePath) <==> !has_id(old(self)@, row.uuid) && has_path(old(self)@, row.path@),
            r is Err ==> final(self)@ == old(self)@,
            r is Ok ==> exists|k: int| insert_position(old(self)@, row.uuid, k) && final(self)@ == old(self)@.insert(k, row),
            r is Ok && all_below(old(self)@, row.uuid) ==> final(self)@ == old(self)@.push(row),
    {
        let ghost s = self@;
        let n = self.rows.len();
        let mut k = n;
        while k > 0 && self.rows[k - 1].uuid > row.uuid
            invariant
                s == self@,
                n == s.len(),
                k <= n,
                forall|j: int| k <= j < n ==> (#[trigger] s[j]).uuid > row.uuid,
            decreases k,
        {
            k = k - 1;
        }
        if k > 0 && self.rows[k - 1].uuid == row.uuid {
            return Err(CatalogError::DuplicateId);
        }
        assert(insert_position(s, row.uuid, k as int)) by {
            assert forall|j: int| 0 <= j < k implies (#[trigger] s[j]).uuid < row.uuid by {
                if j < k - 1 {
                    assert(s[j].uuid < s[k - 1].uuid);
                }
            }
        }
        assert(!has_id(s, row.uuid));
        let mut i: usize = 0;
        while i < n
            invariant
                s == self@,
                n == s.len(),
                i <= n,
                forall|j: int| 0 <= j < i ==> (#[trigger] s[j]).path@ != row.path@,
                ids_increasing(s),
                paths_unique(s),
                !has_id(s, row.uuid),
            decreases n - i,
        {
            if same_text(self.rows[i].path.as_str(), row.path.as_str()) {
                assert(s[i as int].path@ == row.path@);
                return Err(CatalogError::DuplicatePath);
            }
            i = i + 1;
        }
        assert(!has_path(s, row.path@));
        let ghost id = row.uuid;
        let ghost r = row;
        self.rows.insert(k, row);
        proof {
            let t = s.insert(k as int, r);
            assert(self@ == t);
            assert forall|a: int, b: int| 0 <= a < b < t.len() implies t[a].uuid < t[b].uuid by {
                if b < k {
                } else if a > k {
                    assert(t[a] == s[a - 1] && t[b] == s[b - 1]);
                } else if a == k {
                    assert(t[b] == s[b - 1]);
                } else if b == k {
                    assert(t[a] == s[a]);
                } else {
                    assert(t[a] == s[a] && t[b] == s[b - 1]);
                }
            }
            assert forall|a: int, b: int| 0 <= a < b < t.len() implies t[a].path@ != t[b].path@ by {
                if b < k {
                } else if a > k {
                    assert(t[a] == s[a - 1] && t[b] == s[b - 1]);
                } else if a == k {
                    assert(t[b] == s[b - 1]);
                } else if b == k {
                    assert(t[a] == s[a]);
                } else {
                    assert(t[a] == s[a] && t[b] == s[b - 1]);
                }
            }
            if all_below(s, id) {
                if k < n {
                    assert(s[k as int].uuid < id);
                }
                assert(t =~= s.push(r));
            }
        }
        Ok(())
    }

    /// Whether a row has path `path`.
    pub fn has_path_text(&self, path: &str) -> (r: bool)
        ensures
            r == has_path(self@, path@),
    {
        let mut i: usize = 0;
        while i < self.rows.len()
            invariant
                i <= self@.len(),
                forall|j: int| 0 <= j < i ==> (#[trigger] self@[j]).path@ != path@,
            decreases self.rows.len() - i,
        {
            if same_text(self.rows[i].path.as_str(), path) {
                assert(self@[i as int].path@ == path@);
                return true;
            }
            i = i + 1;
        }
        false
    }

    /// The last row of `service` of `kind` created on `day`
    /// (the row with the greatest identifier among them).
    pub fn find_latest(&self, service: &str, kind: BackupKind, day: i64) -> (r: Option<MysqlBackupRow>)
        ensures
            r == latest(self@, service@, kind, day as int),
    {
        let mut i = self.rows.len();
        assert(self@.take(i as int) =~= self@);
        while i > 0
            invariant
                i <= self.rows@.len(),
                latest(self@, service@, kind, day as int) == latest(self@.take(i as int), service@, kind, day as int),
            decreases i,
        {
            let row = &self.rows[i - 1];
            assert(self@.take(i as int).drop_last() =~= self@.take(i - 1));
            assert(self@.take(i as int).last() == self@[i - 1]);
            if same_text(row.service.as_str(), service) && row.backup_type == kind && day_number(row.created_at) == day {
                return Some(row.copy_row());
            }
            i = i - 1;
        }
        None
    }

    /// The rows created before `cutoff`, in order.
    pub fn older_than(&self, cutoff: i128) -> (r: Vec<MysqlBackupRow>)
        ensures
            r@ == rows_before(self@, cutoff as int),
    {
        let mut out: Vec<MysqlBackupRow> = Vec::new();
        let mut i: usize = 0;
        while i < self.rows.len()
            invariant
                i <= self.rows@.len(),
                out@ == rows_before(self@.take(i as int), cutoff as int),
            decreases self.rows.len() - i,
        {
            proof {
                reveal(Seq::filter);
                assert(self@.take(i + 1).drop_last() =~= self@.take(i as int));
            }
            if (self.rows[i].created_at as i128) < cutoff {
                out.push(self.rows[i].copy_row());
            }
            i = i + 1;
        }
        assert(self@.take(self@.len() as int) =~= self@);
        out
    }

    /// Removes the rows created before `cutoff` and returns them, in order.
    /// Rows leave the catalog together with their artifacts, so a chain
    /// query never selects a base whose artifact was deleted.
    pub fn prune(&mut self, cutoff: i128) -> (removed: Vec<MysqlBackupRow>)
        requires
            old(self).wf(),
        ensures
            final(self).wf(),
            removed@ == rows_before(old(self)@, cutoff as int),
            final(self)@ == rows_from(old(self)@, cutoff as int),
    {
        let ghost s = self@;
        let mut kept: Vec<MysqlBackupRow> = Vec::new();
        let mut removed: Vec<MysqlBackupRow> = Vec::new();
        let ghost mut idx: Seq<int> = Seq::empty();
        let mut i: usize = 0;
        while i < self.rows.len()
            invariant
                s == self@,
                ids_increasing(s),
                paths_unique(s),
                i <= s.len(),
                removed@ == rows_before(s.take(i as int), cutoff as int),
                kept@ == rows_from(s.take(i as int), cutoff as int),
                idx.len() == kept@.len(),
                forall|k: int| 0 <= k < idx.len() ==> 0 <= #[trigger] idx[k] < i && kept@[k] == s[idx[k]],
                forall|a: int, b: int| 0 <= a < b < idx.len() ==> idx[a] < idx[b],
            decreases s.len() - i,
        {
            proof {
                reveal(Seq::filter);
                assert(s.take(i + 1).drop_last() =~= s.take(i as int));
            }
            if (self.rows[i].created_at as i128) < cutoff {
                removed.push(self.rows[i].copy_row());
            } else {
                kept.push(self.rows[i].copy_row());
                proof {
                    idx = idx.push(i as int);
                }
            }
            i = i + 1;
        }
        proof {
            assert forall|a: int, b: int| 0 <= a < b < kept@.len() implies kept@[a].uuid < kept@[b].uuid && kept@[a].path@ != kept@[b].path@ by {
                assert(kept@[a] == s[idx[a]] && kept@[b] == s[idx[b]]);
            }
        }
        assert(s.take(s.len() as int) =~= s);
        self.rows = kept;
        removed
    }
}

} // verus!
