pub mod actor;
pub mod handler;
