pub mod dispatcher;
pub mod event;
pub mod slack;
