//! The configuration of a run.

pub mod loader;
pub mod schema;

pub use crate::config::loader::{load_config, merge_with_cli_args};
pub use crate::config::schema::GenerationConfig;
