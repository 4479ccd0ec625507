//! Retention: artifacts older than the configured number of days are
//! removed before a new run.
use vstd::prelude::*;
use vstd::arithmetic::div_mod::{lemma_div_is_ordered, lemma_fundamental_div_mod, lemma_fundamental_div_mod_converse, lemma_mod_bound};
use crate::catalog::{
    BackupKind, Catalog, MysqlBackupRow, SECONDS_PER_DAY, chain_base, created_before, day_of, in_query, rows_before,
    rows_from,
};

verus! {

/// The instant before which artifacts have aged out: `keep_last` days
/// before `now` (both in seconds since the epoch).
pub open spec fn cutoff_of(now: int, keep_last: int) -> int {
    now - keep_last * (SECONDS_PER_DAY as int)
}

/// Whether an artifact created at `created_at` has aged out at `now`.
pub open spec fn expired(created_at: int, now: int, keep_last: int) -> bool {
    created_at < cutoff_of(now, keep_last)
}

/// The retention cutoff for `now` and `keep_last` days.
pub fn retention_cutoff(now: i64, keep_last: u64) -> (r: i128)
    ensures
        r == cutoff_of(now as int, keep_last as int),
{
    proof {
        assert(0 <= keep_last * 86400 <= 86400 * 0xffff_ffff_ffff_ffffnat) by (nonlinear_arith)
            requires keep_last <= 0xffff_ffff_ffff_ffffnat;
    }
    (now as i128) - (keep_last as i128) * (SECONDS_PER_DAY as i128)
}

/// Removes from the catalog the rows of the artifacts that have aged out at
/// `now` and returns them, oldest identifier first, so that their artifacts
/// can be deleted.
pub fn prune_expired(catalog: &mut Catalog, now: i64, keep_last: u64) -> (removed: Vec<MysqlBackupRow>)
    requires
        old(catalog).wf(),
    ensures
        final(catalog).wf(),
        removed@ == rows_before(old(catalog)@, cutoff_of(now as int, keep_last as int)),
        final(catalog)@ == rows_from(old(catalog)@, cutoff_of(now as int, keep_last as int)),
{
    let cutoff = retention_cutoff(now, keep_last);
    catalog.prune(cutoff)
}

/// An artifact created one day more than the window before `now` has aged
/// out; one created one day less than the window before `now` is kept.
pub proof fn lemma_retention_boundary(now: int, keep_last: nat)
    ensures
        expired(now - (keep_last + 1) * (SECONDS_PER_DAY as int), now, keep_last as int),
        !expired(now - (keep_last - 1) * (SECONDS_PER_DAY as int), now, keep_last as int),
{
    assert((keep_last + 1) * 86400 == keep_last * 86400 + 86400) by (nonlinear_arith);
    assert((keep_last - 1) * 86400 == keep_last * 86400 - 86400) by (nonlinear_arith);
}

/// With a window of at least one day, nothing created on the day of `now`
/// has aged out.
proof fn lemma_aged_out_is_earlier_day(created_at: int, now: int, keep_last: int)
    requires
        keep_last >= 1,
        expired(created_at, now, keep_last),
    ensures
        day_of(created_at) < day_of(now),
{
    assert(keep_last * 86400 >= 86400) by (nonlinear_arith)
        requires keep_last >= 1;
    lemma_div_is_ordered(created_at, now - 86400, 86400);
    lemma_fundamental_div_mod(now, 86400);
    lemma_mod_bound(now, 86400);
    lemma_fundamental_div_mod_converse(now - 86400, 86400, now / 86400 - 1, now % 86400);
}

/// With a window of at least one day, pruning at `now` leaves the chain
/// base of every service on the day of `now` as it was, so runs of that day
/// keep chaining onto the same backups.
pub proof fn lemma_retention_keeps_current_chain(s: Seq<MysqlBackupRow>, service: Seq<char>, now: int, keep_last: int)
    requires
        keep_last >= 1,
    ensures
        chain_base(rows_from(s, cutoff_of(now, keep_last)), service, day_of(now)) == chain_base(s, service, day_of(now)),
    decreases s.len(),
{
    let cutoff = cutoff_of(now, keep_last);
    let day = day_of(now);
    if s.len() > 0 {
        let t = s.drop_last();
        lemma_retention_keeps_current_chain(t, service, now, keep_last);
        reveal(Seq::filter);
        assert(rows_from(s, cutoff) == if !created_before(s.last(), cutoff) {
            rows_from(t, cutoff).push(s.last())
        } else {
            rows_from(t, cutoff)
        });
        if created_before(s.last(), cutoff) {
            lemma_aged_out_is_earlier_day(s.last().created_at as int, now, keep_last);
            assert(!in_query(s.last(), service, BackupKind::Incremental, day));
        } else {
            assert(rows_from(s, cutoff).drop_last() =~= rows_from(t, cutoff));
        }
    }
}

} // verus!
