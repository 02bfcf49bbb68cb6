pub mod calendar;
pub mod episodes;
pub mod movies;
pub mod notifications;
pub mod search;
pub mod shows;
pub mod sync;
pub mod up_next;
pub mod watch_log;
