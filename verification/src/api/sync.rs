//! `POST /api/v1/sync`: a manual TMDB refresh, at most once a minute.
use vstd::prelude::*;
use crate::error::AppError;
use crate::logic::resync::{error_views, ResyncError, ResyncReport};
use crate::state::MANUAL_SYNC_MIN_INTERVAL_SECS;
use crate::text::{int_text, owned, push_int, push_str};

verus! {

pub struct SyncError {
    pub tmdb_id: i64,
    pub message: String,
}

pub struct SyncResponse {
    pub shows_synced: usize,
    pub errors: Vec<SyncError>,
}

pub open spec fn sync_error_views(errors: Seq<SyncError>) -> Seq<(i64, Seq<char>)> {
    errors.map_values(|e: SyncError| (e.tmdb_id, e.message@))
}

/// The response of a run: its count and its failures, in order.
pub fn sync_response(report: ResyncReport) -> (r: SyncResponse)
    ensures
        r.shows_synced == report.shows_synced,
        sync_error_views(r.errors@) == error_views(report.errors@),
{
    let mut errors: Vec<SyncError> = Vec::new();
    let mut rest = report.errors;
    let ghost all = rest@;
    let n = rest.len();
    let mut rev: Vec<ResyncError> = Vec::new();
    while rest.len() > 0
        invariant
            rev@.len() + rest@.len() == n,
            all.len() == n,
            forall|k: int| 0 <= k < rest@.len() ==> rest@[k] == all[k],
            forall|k: int| 0 <= k < rev@.len() ==> rev@[k] == all[n - 1 - k],
        decreases rest@.len(),
    {
        let e = rest.pop().unwrap();
        rev.push(e);
    }
    let mut i: usize = 0;
    while rev.len() > 0
        invariant
            i + rev@.len() == n,
            all.len() == n,
            forall|k: int| 0 <= k < rev@.len() ==> rev@[k] == all[n - 1 - k],
            sync_error_views(errors@) == error_views(all.take(i as int)),
        decreases rev@.len(),
    {
        let e = rev.pop().unwrap();
        assert(e == all[i as int]);
        let ghost before = errors@;
        errors.push(SyncError { tmdb_id: e.tmdb_id, message: e.message });
        assert(sync_error_views(errors@) =~= sync_error_views(before).push((e.tmdb_id, e.message@)));
        assert(error_views(all.take(i + 1)) =~= error_views(all.take(i as int)).push((e.tmdb_id, e.message@)));
        i = i + 1;
    }
    assert(all.take(n as int) =~= all);
    SyncResponse { shows_synced: report.shows_synced, errors }
}

/// The refusal of a sync started too soon after the last one.
pub fn sync_too_soon() -> (e: AppError)
    ensures
        e matches AppError::TooManyRequests(m) && m@ == "a sync ran less than "@ + int_text(
            MANUAL_SYNC_MIN_INTERVAL_SECS as int,
        ) + "s ago; try again shortly"@,
{
    let mut m = owned("a sync ran less than ");
    push_int(&mut m, MANUAL_SYNC_MIN_INTERVAL_SECS as i64);
    push_str(&mut m, "s ago; try again shortly");
    AppError::TooManyRequests(m)
}

} // verus!
