//! What the library makes of database rows: the list ceiling, the stored
//! provider lists, and the shapes built from rows.
use vstd::prelude::*;
use crate::datasources::tmdb::{us_provider_names, TmdbShow};
use crate::error::AppError;
use crate::models::movie::{MovieRow, MovieWatchlistItem};
use crate::models::watch_log::{action_str, action_text, NewWatchLogEntry};
use crate::models::show::{
    backdrop_url, image_url, poster_url, CalendarEpisode, EpisodeDetail, EpisodeRow,
    SeasonDetail, SeasonRow, ShowDetail, ShowRow, UpNextItem, WatchlistItem, BACKDROP_BASE,
    POSTER_BASE,
};
use crate::text::{as_deref, opt_str_view, opt_view, strictly_sorted, views};

verus! {

/// Server-enforced ceiling on the rows a list query returns.
pub const MAX_LIST_ROWS: i64 = 500;

/// A string that counts as absent when empty.
pub open spec fn non_empty(s: Option<Seq<char>>) -> Option<Seq<char>> {
    match s {
        Some(v) => if v.len() > 0 {
            Some(v)
        } else {
            None
        },
        None => None,
    }
}

/// Stores an empty text as NULL.
pub fn empty_to_none(s: Option<&str>) -> (r: Option<&str>)
    ensures
        opt_str_view(r) == non_empty(opt_str_view(s)),
        r matches Some(v) ==> s == Some(v),
{
    match s {
        Some(v) => if v.is_empty() {
            None
        } else {
            Some(v)
        },
        None => None,
    }
}

// === Stored provider lists (a JSON array of names) ===

/// The list of strings a JSON text denotes, if it is an array of strings.
pub uninterp spec fn json_string_list(text: Seq<char>) -> Option<Seq<Seq<char>>>;

/// The JSON text `serde_json` writes for a list of strings.
pub uninterp spec fn string_list_json(items: Seq<Seq<char>>) -> Seq<char>;

/// `serde_json::from_str::<Vec<String>>`, its error dropped.
#[verifier::external_body]
fn parse_string_list(text: &str) -> (r: Option<Vec<String>>)
    ensures
        match r {
            Some(v) => json_string_list(text@) == Some(views(v@)),
            None => json_string_list(text@) is None,
        },
{
    serde_json::from_str::<Vec<String>>(text).ok()
}

/// `serde_json::to_string` of a list of strings. It fails only where a
/// `Serialize` impl fails or a map has non-string keys, neither of which a
/// list of strings has, so it succeeds here. The text is a JSON array of
/// the strings, each escaped, which `serde_json::from_str` reads back as the
/// same list.
#[verifier::external_body]
fn write_string_list(items: &Vec<String>) -> (r: Result<String, serde_json::Error>)
    ensures
        r is Ok,
        r matches Ok(s) ==> s@ == string_list_json(views(items@)),
        r matches Ok(s) ==> json_string_list(s@) == Some(views(items@)),
{
    serde_json::to_string(items)
}

/// The provider names stored with a show: none when the column is NULL or
/// does not hold a JSON array of strings.
pub open spec fn stored_providers(json: Option<Seq<char>>) -> Seq<Seq<char>> {
    match json {
        Some(j) => match json_string_list(j) {
            Some(v) => v,
            None => Seq::empty(),
        },
        None => Seq::empty(),
    }
}

pub fn providers_from_json(json: Option<&str>) -> (r: Vec<String>)
    ensures
        views(r@) == stored_providers(opt_str_view(json)),
{
    match json {
        Some(j) => match parse_string_list(j) {
            Some(v) => v,
            None => Vec::new(),
        },
        None => {
            let r: Vec<String> = Vec::new();
            assert(views(r@) =~= Seq::empty());
            r
        },
    }
}

/// The JSON text stored for a list of provider names; writing it never
/// fails.
pub fn providers_to_json(names: &Vec<String>) -> (r: Result<String, AppError>)
    ensures
        r is Ok,
        r matches Ok(s) ==> s@ == string_list_json(views(names@)),
        r matches Ok(s) ==> stored_providers(Some(s@)) == views(names@),
{
    match write_string_list(names) {
        Ok(s) => Ok(s),
        Err(e) => Err(AppError::Json(e)),
    }
}

// === Watchlist ===

/// Watched, aired and total episode counts of one show.
pub struct EpisodeCounts {
    pub watched: i64,
    pub aired: i64,
    pub total: i64,
}

/// The watchlist entry of a show.
pub fn watchlist_item(s: ShowRow, counts: EpisodeCounts, next: Option<String>) -> (r:
    WatchlistItem)
    ensures
        r.tmdb_id == s.tmdb_id,
        r.name == s.name,
        opt_view(r.poster_url) == image_url(POSTER_BASE@, opt_view(s.poster_path)),
        r.status == s.status,
        r.in_production == (s.in_production != 0),
        r.watched_count == counts.watched,
        r.aired_count == counts.aired,
        r.total_count == counts.total,
        r.next_episode_air_date == next,
{
    let poster = poster_url(as_deref(&s.poster_path));
    WatchlistItem {
        tmdb_id: s.tmdb_id,
        name: s.name,
        poster_url: poster,
        status: s.status,
        in_production: s.in_production != 0,
        watched_count: counts.watched,
        aired_count: counts.aired,
        total_count: counts.total,
        next_episode_air_date: next,
    }
}

// === Show detail ===

/// How many of the episodes are watched.
pub open spec fn watched_count(eps: Seq<EpisodeRow>) -> int
    decreases eps.len(),
{
    if eps.len() == 0 {
        0
    } else {
        watched_count(eps.drop_last()) + if eps.last().watched != 0 {
            1int
        } else {
            0int
        }
    }
}

proof fn lemma_watched_count_bound(eps: Seq<EpisodeRow>)
    ensures
        0 <= watched_count(eps) <= eps.len(),
    decreases eps.len(),
{
    if eps.len() > 0 {
        lemma_watched_count_bound(eps.drop_last());
    }
}

/// The detail of one episode.
pub open spec fn episode_detail_of(e: EpisodeRow, d: EpisodeDetail) -> bool {
    &&& d.episode_number == e.episode_number
    &&& d.name == e.name
    &&& d.overview == e.overview
    &&& d.air_date == e.air_date
    &&& d.runtime == e.runtime
    &&& d.watched == (e.watched != 0)
}

/// A season with its episodes (given in episode order).
pub fn season_detail(season: SeasonRow, episodes: Vec<EpisodeRow>) -> (r: SeasonDetail)
    requires
        episodes@.len() <= i64::MAX,
    ensures
        r.season_number == season.season_number,
        r.name == season.name,
        r.overview == season.overview,
        r.air_date == season.air_date,
        r.episode_count == season.episode_count,
        r.watched_count == watched_count(episodes@),
        r.episodes@.len() == episodes@.len(),
        forall|i: int|
            0 <= i < episodes@.len() ==> episode_detail_of(
                #[trigger] episodes@[i],
                r.episodes@[i],
            ),
{
    let mut watched: i64 = 0;
    let mut details: Vec<EpisodeDetail> = Vec::new();
    let n = episodes.len();
    let mut rest = episodes;
    let ghost all = rest@;
    // Consume the rows front to back.
    let mut i: usize = 0;
    let mut rev: Vec<EpisodeRow> = Vec::new();
    while rest.len() > 0
        invariant
            rev@.len() + rest@.len() == n,
            all.len() == n,
            forall|k: int| 0 <= k < rest@.len() ==> rest@[k] == all[k],
            forall|k: int| 0 <= k < rev@.len() ==> rev@[k] == all[n - 1 - k],
        decreases rest@.len(),
    {
        let e = rest.pop().unwrap();
        rev.push(e);
    }
    while rev.len() > 0
        invariant
            i + rev@.len() == n,
            n <= i64::MAX,
            all.len() == n,
            forall|k: int| 0 <= k < rev@.len() ==> rev@[k] == all[n - 1 - k],
            details@.len() == i,
            forall|k: int| 0 <= k < i ==> episode_detail_of(#[trigger] all[k], details@[k]),
            watched == watched_count(all.take(i as int)),
            0 <= watched <= i,
        decreases rev@.len(),
    {
        let e = rev.pop().unwrap();
        assert(e == all[i as int]);
        proof {
            assert(all.take(i + 1).drop_last() =~= all.take(i as int));
        }
        if e.watched != 0 {
            watched = watched + 1;
        }
        details.push(
            EpisodeDetail {
                episode_number: e.episode_number,
                name: e.name,
                overview: e.overview,
                air_date: e.air_date,
                runtime: e.runtime,
                watched: e.watched != 0,
            },
        );
        i = i + 1;
    }
    assert(all.take(n as int) =~= all);
    SeasonDetail {
        season_number: season.season_number,
        name: season.name,
        overview: season.overview,
        air_date: season.air_date,
        episode_count: season.episode_count,
        watched_count: watched,
        episodes: details,
    }
}

/// A show with its seasons (given in season order) and stored providers.
pub fn show_detail(s: ShowRow, seasons: Vec<SeasonDetail>) -> (r: ShowDetail)
    ensures
        r.tmdb_id == s.tmdb_id,
        r.name == s.name,
        r.overview == s.overview,
        opt_view(r.poster_url) == image_url(POSTER_BASE@, opt_view(s.poster_path)),
        opt_view(r.backdrop_url) == image_url(BACKDROP_BASE@, opt_view(s.backdrop_path)),
        r.status == s.status,
        r.in_production == (s.in_production != 0),
        r.first_air_date == s.first_air_date,
        r.last_air_date == s.last_air_date,
        views(r.watch_providers@) == stored_providers(opt_view(s.watch_providers_json)),
        r.seasons == seasons,
{
    let providers = providers_from_json(as_deref(&s.watch_providers_json));
    let poster = poster_url(as_deref(&s.poster_path));
    let backdrop = backdrop_url(as_deref(&s.backdrop_path));
    ShowDetail {
        tmdb_id: s.tmdb_id,
        name: s.name,
        overview: s.overview,
        poster_url: poster,
        backdrop_url: backdrop,
        status: s.status,
        in_production: s.in_production != 0,
        first_air_date: s.first_air_date,
        last_air_date: s.last_air_date,
        watch_providers: providers,
        seasons,
    }
}

// === Movies ===

pub fn movie_item(m: MovieRow) -> (r: MovieWatchlistItem)
    ensures
        r.tmdb_id == m.tmdb_id,
        r.name == m.name,
        r.overview == m.overview,
        opt_view(r.poster_url) == image_url(POSTER_BASE@, opt_view(m.poster_path)),
        opt_view(r.backdrop_url) == image_url(BACKDROP_BASE@, opt_view(m.backdrop_path)),
        r.release_date == m.release_date,
        r.runtime == m.runtime,
        r.added_at == m.added_at,
{
    let poster = poster_url(as_deref(&m.poster_path));
    let backdrop = backdrop_url(as_deref(&m.backdrop_path));
    MovieWatchlistItem {
        tmdb_id: m.tmdb_id,
        name: m.name,
        overview: m.overview,
        poster_url: poster,
        backdrop_url: backdrop,
        release_date: m.release_date,
        runtime: m.runtime,
        added_at: m.added_at,
    }
}

// === Notifications ===

pub struct NotifiableEpisode {
    pub show_tmdb_id: i64,
    pub show_name: String,
    pub season_number: i64,
    pub episode_number: i64,
    pub episode_name: Option<String>,
    pub watch_providers: Vec<String>,
}

/// An episode airing on a date, joined with its show.
pub struct AiringRow {
    pub show_tmdb_id: i64,
    pub show_name: String,
    pub watch_providers_json: Option<String>,
    pub season_number: i64,
    pub episode_number: i64,
    pub episode_name: Option<String>,
}

pub fn notifiable_episode(r: AiringRow) -> (e: NotifiableEpisode)
    ensures
        e.show_tmdb_id == r.show_tmdb_id,
        e.show_name == r.show_name,
        e.season_number == r.season_number,
        e.episode_number == r.episode_number,
        e.episode_name == r.episode_name,
        views(e.watch_providers@) == stored_providers(opt_view(r.watch_providers_json)),
{
    let providers = providers_from_json(as_deref(&r.watch_providers_json));
    NotifiableEpisode {
        show_tmdb_id: r.show_tmdb_id,
        show_name: r.show_name,
        season_number: r.season_number,
        episode_number: r.episode_number,
        episode_name: r.episode_name,
        watch_providers: providers,
    }
}

// === Up next and calendar ===

/// The oldest unwatched aired episode of a show, with the show's backlog.
pub struct UpNextRow {
    pub show_tmdb_id: i64,
    pub show_name: String,
    pub poster_path: Option<String>,
    pub season_number: i64,
    pub episode_number: i64,
    pub episode_name: Option<String>,
    pub episode_overview: Option<String>,
    pub air_date: String,
    pub remaining: i64,
}

pub fn up_next_item(r: UpNextRow) -> (u: UpNextItem)
    ensures
        u.show_tmdb_id == r.show_tmdb_id,
        u.show_name == r.show_name,
        opt_view(u.poster_url) == image_url(POSTER_BASE@, opt_view(r.poster_path)),
        u.season_number == r.season_number,
        u.episode_number == r.episode_number,
        u.episode_name == r.episode_name,
        u.episode_overview == r.episode_overview,
        u.air_date == r.air_date,
        u.remaining == r.remaining,
{
    let poster = poster_url(as_deref(&r.poster_path));
    UpNextItem {
        show_tmdb_id: r.show_tmdb_id,
        show_name: r.show_name,
        poster_url: poster,
        season_number: r.season_number,
        episode_number: r.episode_number,
        episode_name: r.episode_name,
        episode_overview: r.episode_overview,
        air_date: r.air_date,
        remaining: r.remaining,
    }
}

/// An episode airing in a date range, joined with its show.
pub struct CalendarRow {
    pub show_tmdb_id: i64,
    pub show_name: String,
    pub poster_path: Option<String>,
    pub season_number: i64,
    pub episode_number: i64,
    pub episode_name: Option<String>,
    pub air_date: String,
    pub watched: i64,
}

pub fn calendar_episode(r: CalendarRow) -> (c: CalendarEpisode)
    ensures
        c.show_tmdb_id == r.show_tmdb_id,
        c.show_name == r.show_name,
        opt_view(c.poster_url) == image_url(POSTER_BASE@, opt_view(r.poster_path)),
        c.season_number == r.season_number,
        c.episode_number == r.episode_number,
        c.episode_name == r.episode_name,
        c.air_date == r.air_date,
        c.watched == (r.watched != 0),
{
    let poster = poster_url(as_deref(&r.poster_path));
    CalendarEpisode {
        show_tmdb_id: r.show_tmdb_id,
        show_name: r.show_name,
        poster_url: poster,
        season_number: r.season_number,
        episode_number: r.episode_number,
        episode_name: r.episode_name,
        air_date: r.air_date,
        watched: r.watched != 0,
    }
}

// === Episode mutations ===

/// Which episodes a bulk watched-state change covers (always only aired ones).
pub enum BulkScope {
    All,
    Season { season_number: i64 },
    ThroughEpisode { season_number: i64, episode_number: i64 },
}

/// The scope a bulk change is logged under.
pub open spec fn bulk_scope_name(scope: BulkScope) -> Seq<char> {
    match scope {
        BulkScope::All => "show"@,
        BulkScope::Season { .. } => "season"@,
        BulkScope::ThroughEpisode { .. } => "through_episode"@,
    }
}

/// The history entry of a bulk change to a show: one entry for all the
/// episodes whose state changed, naming the season (and, through an
/// episode, the episode) that bounds its scope.
pub fn bulk_log_entry<'a>(
    scope: &BulkScope,
    watched: bool,
    show_tmdb_id: i64,
    title: &'a str,
    poster_path: Option<&'a str>,
    changed: i64,
) -> (r: NewWatchLogEntry<'a>)
    ensures
        r.media_type@ == "tv"@,
        r.action@ == action_text(watched),
        r.scope@ == bulk_scope_name(*scope),
        r.tmdb_id == show_tmdb_id,
        r.title@ == title@,
        opt_str_view(r.poster_path) == opt_str_view(poster_path),
        r.season_number == match *scope {
            BulkScope::All => None,
            BulkScope::Season { season_number } => Some(season_number),
            BulkScope::ThroughEpisode { season_number, .. } => Some(season_number),
        },
        r.episode_number == match *scope {
            BulkScope::ThroughEpisode { episode_number, .. } => Some(episode_number),
            _ => None::<i64>,
        },
        r.episode_name is None,
        r.episode_count == changed,
{
    let (name, season, episode): (&'static str, Option<i64>, Option<i64>) = match scope {
        BulkScope::All => ("show", None, None),
        BulkScope::Season { season_number } => ("season", Some(*season_number), None),
        BulkScope::ThroughEpisode { season_number, episode_number } => (
            "through_episode",
            Some(*season_number),
            Some(*episode_number),
        ),
    };
    NewWatchLogEntry {
        media_type: "tv",
        action: action_str(watched),
        scope: name,
        tmdb_id: show_tmdb_id,
        title,
        poster_path,
        season_number: season,
        episode_number: episode,
        episode_name: None,
        episode_count: changed,
    }
}


/// The stored form of a bool column.
pub fn flag(b: bool) -> (r: i64)
    ensures
        r == if b {
            1i64
        } else {
            0i64
        },
{
    if b {
        1
    } else {
        0
    }
}

/// The JSON text stored for a show's US providers (sorted, distinct names).
/// Read back, it gives exactly those names.
pub fn show_providers_json(show: &TmdbShow) -> (r: Result<String, AppError>)
    ensures
        r is Ok,
        r matches Ok(s) ==> exists|names: Seq<Seq<char>>|
            #[trigger] string_list_json(names) == s@ && strictly_sorted(names) && forall|y: Seq<char>|
                names.contains(y) <==> us_provider_names(show.watch_providers).contains(y),
        r matches Ok(s) ==> strictly_sorted(stored_providers(Some(s@))) && forall|y: Seq<char>|
            #[trigger] stored_providers(Some(s@)).contains(y) <==> us_provider_names(
                show.watch_providers,
            ).contains(y),
{
    let names = show.us_providers();
    let r = providers_to_json(&names);
    proof {
        if r is Ok {
            assert(string_list_json(views(names@)) == r->Ok_0@);
        }
    }
    r
}

} // verus!
