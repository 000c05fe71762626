//! A randomized load-generation client for a table-scoped order API.
//!
//! The library synthesizes a workload of typed request tasks within the
//! limits of a [`config::Config`], decides for each task which HTTP request
//! it stands for and how its result is classified, and tallies the outcomes
//! of a run. Transport and thread scheduling are left to the caller.

pub mod config;
pub mod error;
pub mod text;
pub mod gen;
pub mod request;
