//! Extraction of an API description into a format-agnostic intermediate
//! representation, and the projection of its types onto target languages.

pub mod config;
pub mod error;
pub mod generators;
pub mod json;
pub mod name_index;
pub mod operation_processor;
pub mod parsers;
pub mod projection;
pub mod schema_processor;
pub mod search;
pub mod text;
