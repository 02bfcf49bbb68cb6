pub mod pool;
pub mod queries;
pub mod watch_log;
