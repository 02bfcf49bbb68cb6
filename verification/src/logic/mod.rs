pub mod notifications;
pub mod resync;
