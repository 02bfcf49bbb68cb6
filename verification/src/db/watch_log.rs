//! Paging through the watch log.
use vstd::prelude::*;
use crate::models::show::{image_url, poster_url, POSTER_BASE};
use crate::models::watch_log::{WatchLogEntry, WatchLogRow};
use crate::text::{as_deref, opt_view};

verus! {

/// Upper bound on `per_page`.
pub const MAX_PER_PAGE: i64 = 100;

pub const DEFAULT_PER_PAGE: i64 = 50;

/// `x` clamped into `lo..=hi`.
pub open spec fn clamp(x: int, lo: int, hi: int) -> int {
    if x < lo {
        lo
    } else if x > hi {
        hi
    } else {
        x
    }
}

/// The page actually read: page at least 1, `per_page` within
/// `1..=MAX_PER_PAGE`, and the number of newer entries skipped before it.
pub open spec fn page_window_spec(page: int, per_page: int) -> (int, int, int) {
    let pp = clamp(per_page, 1, MAX_PER_PAGE as int);
    let p = if page < 1 {
        1
    } else {
        page
    };
    (p, pp, (p - 1) * pp)
}

/// Normalizes a page request. A page so far out that its offset does not
/// fit in an `i64` is out of range.
pub fn page_window(page: i64, per_page: i64) -> (r: (i64, i64, i64))
    requires
        page_window_spec(page as int, per_page as int).2 <= i64::MAX,
    ensures
        r.0 as int == page_window_spec(page as int, per_page as int).0,
        r.1 as int == page_window_spec(page as int, per_page as int).1,
        r.2 as int == page_window_spec(page as int, per_page as int).2,
{
    let pp = if per_page < 1 {
        1
    } else if per_page > MAX_PER_PAGE {
        MAX_PER_PAGE
    } else {
        per_page
    };
    let p = if page < 1 {
        1
    } else {
        page
    };
    assert(0 <= (p - 1) * pp) by (nonlinear_arith)
        requires
            p >= 1,
            pp >= 1,
    ;
    (p, pp, (p - 1) * pp)
}

/// The wire shape of a logged entry: its poster path becomes a URL.
pub fn watch_log_entry(r: WatchLogRow) -> (e: WatchLogEntry)
    ensures
        e.id == r.id,
        e.occurred_at == r.occurred_at,
        e.media_type == r.media_type,
        e.action == r.action,
        e.scope == r.scope,
        e.tmdb_id == r.tmdb_id,
        e.title == r.title,
        opt_view(e.poster_url) == image_url(POSTER_BASE@, opt_view(r.poster_path)),
        e.season_number == r.season_number,
        e.episode_number == r.episode_number,
        e.episode_name == r.episode_name,
        e.episode_count == r.episode_count,
{
    let poster = poster_url(as_deref(&r.poster_path));
    WatchLogEntry {
        id: r.id,
        occurred_at: r.occurred_at,
        media_type: r.media_type,
        action: r.action,
        scope: r.scope,
        tmdb_id: r.tmdb_id,
        title: r.title,
        poster_url: poster,
        season_number: r.season_number,
        episode_number: r.episode_number,
        episode_name: r.episode_name,
        episode_count: r.episode_count,
    }
}

/// Pages tile the log: each page holds between 1 and `MAX_PER_PAGE`
/// entries and the next page starts right where it ends.
pub proof fn pages_are_adjacent(page: int, per_page: int)
    requires
        page >= 1,
    ensures
        1 <= page_window_spec(page, per_page).1 <= MAX_PER_PAGE,
        page_window_spec(page + 1, per_page).2 == page_window_spec(page, per_page).2
            + page_window_spec(page, per_page).1,
        page_window_spec(1, per_page).2 == 0,
{
    let pp = page_window_spec(page, per_page).1;
    assert(page * pp == (page - 1) * pp + pp) by (nonlinear_arith);
}


/// `per_page` is only brought into `1..=MAX_PER_PAGE`: kept as asked inside
/// it, raised to 1 below it, lowered to `MAX_PER_PAGE` above it; the page is
/// at least 1 and kept as asked from 1 on; and the entries skipped are the
/// full pages before it.
pub proof fn page_window_keeps_what_was_asked(page: int, per_page: int)
    ensures
        1 <= per_page <= MAX_PER_PAGE ==> page_window_spec(page, per_page).1 == per_page,
        per_page < 1 ==> page_window_spec(page, per_page).1 == 1,
        per_page > MAX_PER_PAGE ==> page_window_spec(page, per_page).1 == MAX_PER_PAGE,
        page >= 1 ==> page_window_spec(page, per_page).0 == page,
        page < 1 ==> page_window_spec(page, per_page).0 == 1,
        page_window_spec(page, per_page).2 == (page_window_spec(page, per_page).0 - 1)
            * page_window_spec(page, per_page).1,
{
}

} // verus!
