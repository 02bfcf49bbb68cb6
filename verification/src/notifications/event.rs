//! What a notification announces.
use vstd::prelude::*;

verus! {

#[derive(Clone)]
pub enum NotificationEvent {
    EpisodeAiringToday {
        show_name: String,
        season: i64,
        episode: i64,
        title: String,
        where_to_watch: Vec<String>,
    },
    Test { message: String },
}

} // verus!
