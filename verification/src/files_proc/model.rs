//! The data the pipeline works on.
pub mod file_ident;
pub mod files_pending_proc;
pub mod input_file_type;
