pub mod api;
pub mod auth;
pub mod header;
pub mod ops;
pub mod store;
pub mod task;

pub use api::{API, ApiError};
pub use ops::TaskOp;
pub use task::APITask;
