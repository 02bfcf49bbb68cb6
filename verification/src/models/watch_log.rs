//! The append-only history of watched / unwatched actions.
use vstd::prelude::*;

verus! {

/// One row of the `watch_log` table.
pub struct WatchLogRow {
    pub id: i64,
    pub occurred_at: String,
    pub media_type: String,
    pub action: String,
    pub scope: String,
    pub tmdb_id: i64,
    pub title: String,
    pub poster_path: Option<String>,
    pub season_number: Option<i64>,
    pub episode_number: Option<i64>,
    pub episode_name: Option<String>,
    pub episode_count: i64,
}

/// Wire shape of a history entry.
pub struct WatchLogEntry {
    pub id: i64,
    pub occurred_at: String,
    pub media_type: String,
    pub action: String,
    pub scope: String,
    pub tmdb_id: i64,
    pub title: String,
    pub poster_url: Option<String>,
    pub season_number: Option<i64>,
    pub episode_number: Option<i64>,
    pub episode_name: Option<String>,
    pub episode_count: i64,
}

pub struct WatchLogPage {
    pub entries: Vec<WatchLogEntry>,
    pub page: i64,
    pub per_page: i64,
    pub total: i64,
}

/// What a mutation records, built when the state change is applied.
pub struct NewWatchLogEntry<'a> {
    pub media_type: &'a str,
    pub action: &'a str,
    pub scope: &'a str,
    pub tmdb_id: i64,
    pub title: &'a str,
    pub poster_path: Option<&'a str>,
    pub season_number: Option<i64>,
    pub episode_number: Option<i64>,
    pub episode_name: Option<&'a str>,
    pub episode_count: i64,
}

/// The logged name of a watched-state change.
pub open spec fn action_text(watched: bool) -> Seq<char> {
    if watched {
        "watched"@
    } else {
        "unwatched"@
    }
}

pub fn action_str(watched: bool) -> (r: &'static str)
    ensures
        r@ == action_text(watched),
{
    if watched {
        "watched"
    } else {
        "unwatched"
    }
}

} // verus!
