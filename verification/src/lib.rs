//! The decisions behind a git browser: which refs may be scanned, which local
//! repositories may be opened, what a scan is called, in which order git is
//! driven, and what the HTTP API answers.

pub mod access;
pub mod api;
pub mod api_laws;
pub mod errors;
pub mod job;
pub mod job_laws;
pub mod json;
pub mod label;
pub mod log;
pub mod page;
pub mod policy;
pub mod refname;
pub mod reply;
pub mod submodules;
pub mod text;
pub mod worktree;
