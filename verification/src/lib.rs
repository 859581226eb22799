pub mod config;
pub mod json;
pub mod subject;
