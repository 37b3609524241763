//! Multi-repository workspace orchestration: repository discovery, status
//! aggregation, a cache-tiered clone pipeline, a bounded clone scheduler and a
//! per-repository command runner.
//!
//! The library never performs I/O itself. Each orchestration step is a state
//! machine that asks its driver for one action at a time (check a path, run
//! git, create a directory) and is told the outcome.
pub mod error;
pub mod text;
pub mod gh;
pub mod validation;
pub mod config;
pub mod command;
pub mod clone;
pub mod order;
pub mod repository;
pub mod porcelain;
pub mod status;
pub mod scheduler;
pub mod apply;
pub mod workspace;
