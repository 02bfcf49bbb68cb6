//! Shows, seasons and episodes: database rows and the shapes the API returns.
use vstd::prelude::*;
use crate::text::{as_deref, concat, opt_str_view, opt_view};

verus! {

pub const POSTER_BASE: &'static str = "https://image.tmdb.org/t/p/w185";

pub const BACKDROP_BASE: &'static str = "https://image.tmdb.org/t/p/w780";

/// The URL of an image under `base`; nothing for a missing or empty path.
pub open spec fn image_url(base: Seq<char>, path: Option<Seq<char>>) -> Option<Seq<char>> {
    match path {
        Some(p) => if p.len() > 0 {
            Some(base + p)
        } else {
            None
        },
        None => None,
    }
}

/// Builds `base + path` for a non-empty path.
pub fn image_url_under(base: &str, path: Option<&str>) -> (r: Option<String>)
    ensures
        opt_view(r) == image_url(base@, opt_str_view(path)),
{
    match path {
        Some(p) => if p.is_empty() {
            None
        } else {
            Some(concat(base, p))
        },
        None => None,
    }
}

/// Poster URL (w185) for a TMDB image path.
pub fn poster_url(path: Option<&str>) -> (r: Option<String>)
    ensures
        opt_view(r) == image_url(POSTER_BASE@, opt_str_view(path)),
{
    image_url_under(POSTER_BASE, path)
}

/// Backdrop URL (w780) for a TMDB image path.
pub fn backdrop_url(path: Option<&str>) -> (r: Option<String>)
    ensures
        opt_view(r) == image_url(BACKDROP_BASE@, opt_str_view(path)),
{
    image_url_under(BACKDROP_BASE, path)
}

// === Database rows ===

pub struct ShowRow {
    pub tmdb_id: i64,
    pub name: String,
    pub overview: Option<String>,
    pub poster_path: Option<String>,
    pub backdrop_path: Option<String>,
    pub status: Option<String>,
    pub first_air_date: Option<String>,
    pub last_air_date: Option<String>,
    pub in_production: i64,
    pub watch_providers_json: Option<String>,
    pub notify_new_episodes: i64,
    pub added_at: String,
    pub last_synced_at: Option<String>,
}

pub struct SeasonRow {
    pub show_tmdb_id: i64,
    pub season_number: i64,
    pub name: Option<String>,
    pub overview: Option<String>,
    pub air_date: Option<String>,
    pub episode_count: i64,
}

pub struct EpisodeRow {
    pub show_tmdb_id: i64,
    pub season_number: i64,
    pub episode_number: i64,
    pub tmdb_id: Option<i64>,
    pub name: Option<String>,
    pub overview: Option<String>,
    pub air_date: Option<String>,
    pub runtime: Option<i64>,
    pub watched: i64,
    pub watched_at: Option<String>,
}

// === API response shapes ===

pub struct WatchlistItem {
    pub tmdb_id: i64,
    pub name: String,
    pub poster_url: Option<String>,
    pub status: Option<String>,
    pub in_production: bool,
    pub watched_count: i64,
    pub aired_count: i64,
    pub total_count: i64,
    pub next_episode_air_date: Option<String>,
}

pub struct ShowDetail {
    pub tmdb_id: i64,
    pub name: String,
    pub overview: Option<String>,
    pub poster_url: Option<String>,
    pub backdrop_url: Option<String>,
    pub status: Option<String>,
    pub in_production: bool,
    pub first_air_date: Option<String>,
    pub last_air_date: Option<String>,
    pub watch_providers: Vec<String>,
    pub seasons: Vec<SeasonDetail>,
}

pub struct SeasonDetail {
    pub season_number: i64,
    pub name: Option<String>,
    pub overview: Option<String>,
    pub air_date: Option<String>,
    pub episode_count: i64,
    pub watched_count: i64,
    pub episodes: Vec<EpisodeDetail>,
}

pub struct EpisodeDetail {
    pub episode_number: i64,
    pub name: Option<String>,
    pub overview: Option<String>,
    pub air_date: Option<String>,
    pub runtime: Option<i64>,
    pub watched: bool,
}

pub struct UpNextItem {
    pub show_tmdb_id: i64,
    pub show_name: String,
    pub poster_url: Option<String>,
    pub season_number: i64,
    pub episode_number: i64,
    pub episode_name: Option<String>,
    pub episode_overview: Option<String>,
    pub air_date: String,
    pub remaining: i64,
}

pub struct CalendarEpisode {
    pub show_tmdb_id: i64,
    pub show_name: String,
    pub poster_url: Option<String>,
    pub season_number: i64,
    pub episode_number: i64,
    pub episode_name: Option<String>,
    pub air_date: String,
    pub watched: bool,
}

// === Request shape ===

pub struct AddShowRequest {
    pub tmdb_id: i64,
}

} // verus!
