//! Running jobs side by side.
pub mod threadpool;
