pub mod api;
pub mod config;
pub mod datasources;
pub mod db;
pub mod error;
pub mod http_status;
pub mod logic;
pub mod models;
pub mod notifications;
pub mod server;
pub mod state;
pub mod text;
