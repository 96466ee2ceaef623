//! Discovery of input files and the processing pipeline.
pub mod model;
pub mod processor;
pub mod traits;
