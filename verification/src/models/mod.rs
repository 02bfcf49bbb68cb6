pub mod movie;
pub mod show;
pub mod watch_log;
