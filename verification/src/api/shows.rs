//! Show endpoints: the watchlist, adding, detail, removal and bulk
//! watched-state changes.
use vstd::prelude::*;
use crate::db::queries::BulkScope;
use crate::error::AppError;
use crate::models::show::WatchlistItem;
use crate::text::{id_message, id_text, owned};

verus! {

pub struct WatchlistResponse {
    pub shows: Vec<WatchlistItem>,
}

/// The scope named in a bulk-watch request body.
pub enum BulkWatchScopeBody {
    All,
    Season { season_number: i64 },
    ThroughEpisode { season_number: i64, episode_number: i64 },
}

pub struct BulkWatchRequest {
    pub scope: BulkWatchScopeBody,
    pub watched: bool,
}

/// The scope of the update a request asks for.
pub fn bulk_scope(body: &BulkWatchScopeBody) -> (r: BulkScope)
    ensures
        match *body {
            BulkWatchScopeBody::All => r is All,
            BulkWatchScopeBody::Season { season_number } => r == BulkScope::Season {
                season_number,
            },
            BulkWatchScopeBody::ThroughEpisode { season_number, episode_number } => r
                == BulkScope::ThroughEpisode { season_number, episode_number },
        },
{
    match body {
        BulkWatchScopeBody::All => BulkScope::All,
        BulkWatchScopeBody::Season { season_number } => BulkScope::Season {
            season_number: *season_number,
        },
        BulkWatchScopeBody::ThroughEpisode { season_number, episode_number } => {
            BulkScope::ThroughEpisode {
                season_number: *season_number,
                episode_number: *episode_number,
            }
        },
    }
}

/// Adding a show that is already listed.
pub fn show_already_listed(tmdb_id: i64) -> (e: AppError)
    ensures
        e matches AppError::InvalidData(m) && m@ == id_text(
            "show "@,
            tmdb_id,
            " is already on the watchlist"@,
        ),
{
    AppError::InvalidData(id_message("show ", tmdb_id, " is already on the watchlist"))
}

/// A show that is not on the watchlist.
pub fn show_not_listed(tmdb_id: i64) -> (e: AppError)
    ensures
        e matches AppError::NotFound(m) && m@ == id_text("show "@, tmdb_id, " not on watchlist"@),
{
    AppError::NotFound(id_message("show ", tmdb_id, " not on watchlist"))
}

/// A show missing right after it was inserted.
pub fn show_vanished() -> (e: AppError)
    ensures
        e matches AppError::Config(m) && m@ == "show vanished after insert"@,
{
    AppError::Config(owned("show vanished after insert"))
}

} // verus!
