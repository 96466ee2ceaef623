//! Configuration, errors, text and path helpers, and the worker pool.
pub mod cli_args;
pub mod concurrency;
pub mod config;
pub mod env_vars;
pub mod errors;
pub mod parsing;
pub mod paths;
pub mod run_utils;
pub mod text;
