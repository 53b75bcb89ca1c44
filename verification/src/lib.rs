//! A library for keeping a fleet of cloned repositories in sync with their
//! upstreams: it interprets the results of version-control commands, decides
//! how to refresh a single repository, and drives that decision over every
//! managed repository.

pub mod batch;
pub mod clone;
pub mod command_wrapper;
pub mod config;
pub mod edit;
pub mod gh;
pub mod git;
pub mod github;
pub mod issues;
pub mod list;
pub mod mure_error;
pub mod path;
pub mod refresh;
pub mod refresh_laws;
pub mod text;
pub mod verbosity;

pub use verbosity::Verbosity;
