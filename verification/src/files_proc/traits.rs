//! The three stages of the pipeline, as traits.
use crate::files_proc::model::file_ident::BomFileIdentifier;
use crate::lib_utils::config::Config;
use crate::lib_utils::errors::Vex2PdfError;
use std::sync::Arc;
use vstd::prelude::*;

verus! {

/// Finds the files to process.
pub trait FileSearchProvider {
    type OkType;

    type ErrType;

    fn find_files(self) -> Result<Self::OkType, Self::ErrType> where Self: Sized;
}

/// Converts one file. Implementations read the file, parse it and write the
/// report; they may run on any thread, after other jobs have failed, and report
/// their outcome themselves.
pub trait SingleFileProcProvider: Send + 'static {
    fn process_single_file(&self, file: BomFileIdentifier, config: Arc<Config>) -> Result<
        (),
        Vex2PdfError,
    >;
}

/// Converts all the files that were found.
pub trait MultipleFilesProcProvider {
    type OkType;

    type ErrType;

    fn process(self) -> Result<Self::OkType, Self::ErrType> where Self: Sized;
}

} // verus!
