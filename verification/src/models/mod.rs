pub mod email_log;
pub mod task;
pub mod user;
