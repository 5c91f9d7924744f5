//! Validation, naming, command construction and result parsing for a service
//! that hands uploaded scripts to an external static analyzer.

pub mod artifact;
pub mod config;
pub mod extension;
pub mod finding;
pub mod isolation;
pub mod json;
pub mod pipeline;
pub mod response;
pub mod split;
pub mod text;
