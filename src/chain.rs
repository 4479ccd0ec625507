//! Laws of incremental chains: each physical backup of a service links to
//! the one made just before it on the same day, and the first of a day
//! links to none.
use vstd::prelude::*;
use crate::catalog::{BackupKind, MysqlBackupRow, chain_base, chain_ok, day_of, ids_increasing, in_query, latest};

verus! {

/// What `latest` selects: nothing when no row matches, else a matching row
/// with no matching row after it.
pub proof fn lemma_latest_is_last_match(s: Seq<MysqlBackupRow>, service: Seq<char>, kind: BackupKind, day: int)
    ensures
        latest(s, service, kind, day) is None <==> forall|j: int| 0 <= j < s.len() ==> !in_query(#[trigger] s[j], service, kind, day),
        latest(s, service, kind, day) matches Some(r) ==> exists|j: int|
            0 <= j < s.len() && s[j] == r && in_query(s[j], service, kind, day)
                && forall|k: int| j < k < s.len() ==> !in_query(#[trigger] s[k], service, kind, day),
    decreases s.len(),
{
    if s.len() > 0 {
        let t = s.drop_last();
        lemma_latest_is_last_match(t, service, kind, day);
        if in_query(s.last(), service, kind, day) {
            assert(s[s.len() - 1] == s.last());
        } else {
            assert forall|j: int| 0 <= j < t.len() implies #[trigger] t[j] == s[j] by {}
            if latest(t, service, kind, day) is None {
                assert forall|j: int| 0 <= j < s.len() implies !in_query(#[trigger] s[j], service, kind, day) by {
                    if j < t.len() {
                        assert(t[j] == s[j]);
                    }
                }
            }
            if let Some(r) = latest(t, service, kind, day) {
                let j = choose|j: int|
                    0 <= j < t.len() && t[j] == r && in_query(t[j], service, kind, day)
                        && forall|k: int| j < k < t.len() ==> !in_query(#[trigger] t[k], service, kind, day);
                assert forall|k: int| j < k < s.len() implies !in_query(#[trigger] s[k], service, kind, day) by {
                    if k < t.len() {
                        assert(t[k] == s[k]);
                    }
                }
            }
        }
    }
}

/// A row that `in_query` does not select changes no `latest` answer,
/// wherever it is inserted.
pub proof fn lemma_latest_ignores_insert(s: Seq<MysqlBackupRow>, k: int, row: MysqlBackupRow, service: Seq<char>, kind: BackupKind, day: int)
    requires
        0 <= k <= s.len(),
        !in_query(row, service, kind, day),
    ensures
        latest(s.insert(k, row), service, kind, day) == latest(s, service, kind, day),
    decreases s.len(),
{
    let t = s.insert(k, row);
    if k == s.len() {
        assert(t.drop_last() =~= s);
    } else {
        assert(t.last() == s.last());
        assert(t.drop_last() =~= s.drop_last().insert(k, row));
        lemma_latest_ignores_insert(s.drop_last(), k, row, service, kind, day);
    }
}

/// When no row from index `k` on is selected, `latest` answers as on the
/// first `k` rows.
pub proof fn lemma_latest_of_prefix(s: Seq<MysqlBackupRow>, k: int, service: Seq<char>, kind: BackupKind, day: int)
    requires
        0 <= k <= s.len(),
        forall|j: int| k <= j < s.len() ==> !in_query(#[trigger] s[j], service, kind, day),
    ensures
        latest(s, service, kind, day) == latest(s.take(k), service, kind, day),
    decreases s.len() - k,
{
    if s.len() == k {
        assert(s.take(k) =~= s);
    } else {
        let t = s.drop_last();
        assert(s[s.len() - 1] == s.last());
        assert forall|j: int| k <= j < t.len() implies !in_query(#[trigger] t[j], service, kind, day) by {
            assert(t[j] == s[j]);
        }
        lemma_latest_of_prefix(t, k, service, kind, day);
        assert(t.take(k) =~= s.take(k));
    }
}

/// Inserting a row at its place keeps every incremental row linked to its
/// predecessor, provided that, when the row is incremental, no later row of
/// its service and day is incremental and its base is the current chain
/// base of its service and day.
pub proof fn lemma_chain_insert(s: Seq<MysqlBackupRow>, k: int, row: MysqlBackupRow)
    requires
        chain_ok(s),
        0 <= k <= s.len(),
        row.backup_type == BackupKind::Incremental ==> {
            &&& forall|j: int| k <= j < s.len()
                ==> !in_query(#[trigger] s[j], row.service@, BackupKind::Incremental, day_of(row.created_at as int))
            &&& row.base_uuid == chain_base(s, row.service@, day_of(row.created_at as int))
        },
    ensures
        chain_ok(s.insert(k, row)),
{
    let t = s.insert(k, row);
    if row.backup_type == BackupKind::Incremental {
        lemma_latest_of_prefix(s, k, row.service@, BackupKind::Incremental, day_of(row.created_at as int));
    }
    assert forall|i: int| 0 <= i < t.len() && (#[trigger] t[i]).backup_type == BackupKind::Incremental implies
        t[i].base_uuid == chain_base(t.take(i), t[i].service@, day_of(t[i].created_at as int)) by {
        if i < k {
            assert(t.take(i) =~= s.take(i));
            assert(t[i] == s[i]);
        } else if i == k {
            assert(t.take(i) =~= s.take(k));
        } else {
            assert(t[i] == s[i - 1]);
            assert(t.take(i) =~= s.take(i - 1).insert(k, row));
            let q = s[i - 1];
            if row.backup_type == BackupKind::Incremental {
                assert(!in_query(s[i - 1], row.service@, BackupKind::Incremental, day_of(row.created_at as int)));
            }
            lemma_latest_ignores_insert(s.take(i - 1), k, row, q.service@, BackupKind::Incremental, day_of(q.created_at as int));
        }
    }
}

/// In a linked catalog, an incremental row has no base exactly when no
/// earlier row of its service and day is incremental; otherwise its base
/// is the last such earlier row.
pub proof fn lemma_chain_links(s: Seq<MysqlBackupRow>, i: int)
    requires
        chain_ok(s),
        0 <= i < s.len(),
        s[i].backup_type == BackupKind::Incremental,
    ensures
        s[i].base_uuid is None <==> forall|j: int| 0 <= j < i ==>
            !in_query(#[trigger] s[j], s[i].service@, BackupKind::Incremental, day_of(s[i].created_at as int)),
        s[i].base_uuid matches Some(b) ==> exists|j: int|
            0 <= j < i && s[j].uuid == b && in_query(s[j], s[i].service@, BackupKind::Incremental, day_of(s[i].created_at as int))
                && forall|k: int| j < k < i ==> !in_query(#[trigger] s[k], s[i].service@, BackupKind::Incremental, day_of(s[i].created_at as int)),
{
    let service = s[i].service@;
    let day = day_of(s[i].created_at as int);
    let p = s.take(i);
    lemma_latest_is_last_match(p, service, BackupKind::Incremental, day);
    assert forall|j: int| 0 <= j < i implies #[trigger] p[j] == s[j] by {}
    if let Some(r) = latest(p, service, BackupKind::Incremental, day) {
        let j = choose|j: int|
            0 <= j < p.len() && p[j] == r && in_query(p[j], service, BackupKind::Incremental, day)
                && forall|k: int| j < k < p.len() ==> !in_query(#[trigger] p[k], service, BackupKind::Incremental, day);
        assert forall|k: int| j < k < i implies !in_query(#[trigger] s[k], service, BackupKind::Incremental, day) by {
            assert(p[k] == s[k]);
        }
        assert(s[j].uuid == r.uuid);
        assert(!(forall|j: int| 0 <= j < i ==> !in_query(#[trigger] s[j], service, BackupKind::Incremental, day)));
    } else {
        assert forall|j: int| 0 <= j < i implies !in_query(#[trigger] s[j], service, BackupKind::Incremental, day) by {
            assert(p[j] == s[j]);
        }
    }
}

/// Chains do not branch: two incremental rows of one service and day never
/// share a base, and only the first of them has none.
pub proof fn lemma_chain_linear(s: Seq<MysqlBackupRow>, i: int, j: int)
    requires
        chain_ok(s),
        ids_increasing(s),
        0 <= i < j < s.len(),
        s[i].backup_type == BackupKind::Incremental,
        in_query(s[j], s[i].service@, BackupKind::Incremental, day_of(s[i].created_at as int)),
    ensures
        s[j].base_uuid is Some,
        s[i].base_uuid != s[j].base_uuid,
{
    let service = s[i].service@;
    let day = day_of(s[i].created_at as int);
    lemma_chain_links(s, i);
    lemma_chain_links(s, j);
    assert(in_query(s[i], service, BackupKind::Incremental, day));
    let bj = s[j].base_uuid->0;
    let mj = choose|m: int|
        0 <= m < j && s[m].uuid == bj && in_query(s[m], service, BackupKind::Incremental, day)
            && forall|k: int| m < k < j ==> !in_query(#[trigger] s[k], service, BackupKind::Incremental, day);
    assert(mj >= i);
    if let Some(bi) = s[i].base_uuid {
        let mi = choose|m: int|
            0 <= m < i && s[m].uuid == bi && in_query(s[m], service, BackupKind::Incremental, day)
                && forall|k: int| m < k < i ==> !in_query(#[trigger] s[k], service, BackupKind::Incremental, day);
        assert(s[mi].uuid < s[mj].uuid);
    }
}

} // verus!
