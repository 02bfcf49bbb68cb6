//! `PATCH /api/v1/episodes/{show}/{season}/{episode}`: one episode's
//! watched state.
use vstd::prelude::*;
use crate::error::AppError;
use crate::text::{int_text, owned, push_int, push_str};

verus! {

pub struct EpisodeUpdate {
    pub watched: bool,
}

/// An episode that does not exist.
pub fn episode_not_found(show_tmdb_id: i64, season_number: i64, episode_number: i64) -> (e:
    AppError)
    ensures
        e matches AppError::NotFound(m) && m@ == "episode S"@ + int_text(season_number as int)
            + "E"@ + int_text(episode_number as int) + " of show "@ + int_text(show_tmdb_id as int)
            + " not found"@,
{
    let mut m = owned("episode S");
    push_int(&mut m, season_number);
    push_str(&mut m, "E");
    push_int(&mut m, episode_number);
    push_str(&mut m, " of show ");
    push_int(&mut m, show_tmdb_id);
    push_str(&mut m, " not found");
    AppError::NotFound(m)
}

} // verus!
