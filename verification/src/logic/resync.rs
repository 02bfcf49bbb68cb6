//! Refreshing tracked shows from TMDB: which shows a run covers, which
//! seasons are fetched, and the report of a run. The user's watched state
//! is never part of what a refresh writes.
use vstd::prelude::*;
use crate::datasources::tmdb::{TmdbSeasonSummary, TmdbShow};
use crate::error::AppError;

verus! {

/// Ceiling on the shows one run refreshes: each costs a TMDB call per season.
pub const MAX_SHOWS_PER_RESYNC: usize = 100;

pub struct ResyncReport {
    pub shows_synced: usize,
    pub errors: Vec<ResyncError>,
}

pub struct ResyncError {
    pub tmdb_id: i64,
    pub message: String,
}

/// The shows a run refreshes: the tracked ones, in order, up to the ceiling.
pub fn resync_batch(ids: Vec<i64>) -> (r: Vec<i64>)
    ensures
        r@ == ids@.take(
            if ids@.len() < MAX_SHOWS_PER_RESYNC {
                ids@.len() as int
            } else {
                MAX_SHOWS_PER_RESYNC as int
            },
        ),
{
    let mut r = ids;
    if r.len() > MAX_SHOWS_PER_RESYNC {
        r.truncate(MAX_SHOWS_PER_RESYNC);
    }
    assert(r@ =~= ids@.take(
        if ids@.len() < MAX_SHOWS_PER_RESYNC {
            ids@.len() as int
        } else {
            MAX_SHOWS_PER_RESYNC as int
        },
    ));
    r
}

/// The season numbers of `seasons`, in order, without season 0 (and
/// without negative ones when `skip_negative`).
pub open spec fn season_numbers(seasons: Seq<TmdbSeasonSummary>, skip_negative: bool) -> Seq<i64>
    decreases seasons.len(),
{
    if seasons.len() == 0 {
        Seq::empty()
    } else {
        let n = seasons.last().season_number;
        let rest = season_numbers(seasons.drop_last(), skip_negative);
        if n == 0 || (skip_negative && n < 0) {
            rest
        } else {
            rest.push(n)
        }
    }
}

fn collect_seasons(seasons: &Vec<TmdbSeasonSummary>, skip_negative: bool) -> (r: Vec<i64>)
    ensures
        r@ == season_numbers(seasons@, skip_negative),
{
    let mut r: Vec<i64> = Vec::new();
    let mut i: usize = 0;
    while i < seasons.len()
        invariant
            0 <= i <= seasons@.len(),
            r@ == season_numbers(seasons@.take(i as int), skip_negative),
        decreases seasons@.len() - i,
    {
        let n = seasons[i].season_number;
        proof {
            assert(seasons@.take(i + 1).drop_last() =~= seasons@.take(i as int));
        }
        if !(n == 0 || (skip_negative && n < 0)) {
            r.push(n);
        }
        i = i + 1;
    }
    assert(seasons@.take(seasons@.len() as int) =~= seasons@);
    r
}

/// The seasons fetched when a show is added: all but Specials (season 0)
/// and any non-positive number.
pub fn seasons_to_add(show: &TmdbShow) -> (r: Vec<i64>)
    ensures
        r@ == season_numbers(show.seasons@, true),
        forall|i: int| 0 <= i < r@.len() ==> r@[i] > 0,
{
    let r = collect_seasons(&show.seasons, true);
    proof {
        lemma_season_numbers_kept(show.seasons@, true);
    }
    r
}

/// The seasons fetched when a show is refreshed: all but Specials (season 0).
pub fn seasons_to_resync(show: &TmdbShow) -> (r: Vec<i64>)
    ensures
        r@ == season_numbers(show.seasons@, false),
        forall|i: int| 0 <= i < r@.len() ==> r@[i] != 0,
{
    let r = collect_seasons(&show.seasons, false);
    proof {
        lemma_season_numbers_kept(show.seasons@, false);
    }
    r
}

proof fn lemma_season_numbers_kept(seasons: Seq<TmdbSeasonSummary>, skip_negative: bool)
    ensures
        forall|i: int|
            0 <= i < season_numbers(seasons, skip_negative).len() ==> {
                let n = #[trigger] season_numbers(seasons, skip_negative)[i];
                n != 0 && (skip_negative ==> n > 0)
            },
    decreases seasons.len(),
{
    if seasons.len() > 0 {
        lemma_season_numbers_kept(seasons.drop_last(), skip_negative);
        let rest = season_numbers(seasons.drop_last(), skip_negative);
        let all = season_numbers(seasons, skip_negative);
        assert forall|i: int| 0 <= i < all.len() implies {
            let n = #[trigger] all[i];
            n != 0 && (skip_negative ==> n > 0)
        } by {
            if i < rest.len() {
                assert(all[i] == rest[i]);
            }
        }
    }
}

/// The shows of a run that refreshed without error.
pub open spec fn synced_count(outcomes: Seq<(i64, Result<(), AppError>)>) -> nat
    decreases outcomes.len(),
{
    if outcomes.len() == 0 {
        0
    } else {
        synced_count(outcomes.drop_last()) + if outcomes.last().1 is Ok {
            1nat
        } else {
            0nat
        }
    }
}

/// The shows of a run that failed, in run order, with the client-safe
/// message of each failure.
pub open spec fn failures(outcomes: Seq<(i64, Result<(), AppError>)>) -> Seq<(i64, Seq<char>)>
    decreases outcomes.len(),
{
    if outcomes.len() == 0 {
        Seq::empty()
    } else {
        let rest = failures(outcomes.drop_last());
        match outcomes.last().1 {
            Ok(_) => rest,
            Err(e) => rest.push((outcomes.last().0, e.spec_client_message())),
        }
    }
}

pub open spec fn error_views(errors: Seq<ResyncError>) -> Seq<(i64, Seq<char>)> {
    errors.map_values(|e: ResyncError| (e.tmdb_id, e.message@))
}

proof fn lemma_outcomes_split(outcomes: Seq<(i64, Result<(), AppError>)>)
    ensures
        synced_count(outcomes) + failures(outcomes).len() == outcomes.len(),
    decreases outcomes.len(),
{
    if outcomes.len() > 0 {
        lemma_outcomes_split(outcomes.drop_last());
    }
}

impl ResyncReport {
    /// The report of a run from the outcome of each show, in run order:
    /// successes are counted, failures listed with a message safe for
    /// clients (internal details never reach the response).
    pub fn from_outcomes(outcomes: Vec<(i64, Result<(), AppError>)>) -> (r: ResyncReport)
        ensures
            r.shows_synced == synced_count(outcomes@),
            error_views(r.errors@) == failures(outcomes@),
            r.shows_synced + r.errors@.len() == outcomes@.len(),
    {
        let mut synced: usize = 0;
        let mut errors: Vec<ResyncError> = Vec::new();
        let n = outcomes.len();
        let mut i: usize = 0;
        while i < n
            invariant
                0 <= i <= n,
                n == outcomes@.len(),
                synced == synced_count(outcomes@.take(i as int)),
                error_views(errors@) == failures(outcomes@.take(i as int)),
            decreases n - i,
        {
            proof {
                assert(outcomes@.take(i + 1).drop_last() =~= outcomes@.take(i as int));
                lemma_outcomes_split(outcomes@.take(i as int));
            }
            let id = outcomes[i].0;
            match &outcomes[i].1 {
                Ok(()) => {
                    synced = synced + 1;
                },
                Err(e) => {
                    let ghost before = errors@;
                    let message = e.client_message();
                    errors.push(ResyncError { tmdb_id: id, message });
                    assert(error_views(errors@) =~= error_views(before).push((id, message@)));
                },
            }
            i = i + 1;
        }
        proof {
            assert(outcomes@.take(n as int) =~= outcomes@);
            lemma_outcomes_split(outcomes@);
        }
        ResyncReport { shows_synced: synced, errors }
    }
}


/// A refresh fetches every listed season but the Specials (season 0), and
/// adding a show fetches every positive one: all of them, in TMDB's order,
/// none dropped, none added.
pub proof fn fetched_seasons_are_all_but_specials(seasons: Seq<TmdbSeasonSummary>)
    ensures
        season_numbers(seasons, false) == seasons.filter_map(
            |s: TmdbSeasonSummary|
                if s.season_number != 0 {
                    Some(s.season_number)
                } else {
                    None
                },
        ),
        season_numbers(seasons, true) == seasons.filter_map(
            |s: TmdbSeasonSummary|
                if s.season_number > 0 {
                    Some(s.season_number)
                } else {
                    None
                },
        ),
    decreases seasons.len(),
{
    if seasons.len() > 0 {
        fetched_seasons_are_all_but_specials(seasons.drop_last());
    }
}

} // verus!
