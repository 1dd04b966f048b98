pub mod error;
pub mod handle;
pub mod handler;
pub mod protocol;
pub mod sync;
pub mod tokio_specs;
