//! Batch conversion of CycloneDX documents (VEX, VDR, SBOM) into PDF reports.
//!
//! The crate holds the decisions of the pipeline: which files of a directory are
//! picked up, how they are told apart and deduplicated, where each report is
//! written, how the jobs are handed to the worker pool, and what each report
//! contains. Reading directories and files and drawing the PDF are left to the
//! caller, which passes plain values in and out.
use crate::files_proc::model::files_pending_proc::Identity;
use crate::files_proc::processor::{
    all_converted, is_probing_of, listing_view, scan_outcome, DefaultFilesProcessor, ProbedView,
    RejectionView,
};
use crate::files_proc::traits::{
    FileSearchProvider, MultipleFilesProcProvider, SingleFileProcProvider,
};
use crate::lib_utils::concurrency::threadpool::{
    no_threads_message, requested_jobs, resolved_size,
};
use crate::lib_utils::config::{opt_switches_view, switched_off_kinds, Config};
use crate::lib_utils::errors::{ErrorView, IoError, IoErrorKind, Vex2PdfError};
use vstd::prelude::*;

pub mod files_proc;
pub mod lib_utils;
pub mod pdf;

verus! {

/// The mathematical value of a run's result.
pub open spec fn run_result_view(res: Result<usize, Vex2PdfError>) -> Result<nat, ErrorView> {
    match res {
        Ok(count) => Ok(count as nat),
        Err(e) => Err(e@),
    }
}

/// Whether a run's result fits a scan's outcome, the settings and the size of
/// the pool. A failed scan is the run's failure. Without a thread to run on the
/// run fails. Else the run either hands every file to a job and returns their
/// number, or fails because the pool took no more jobs, which a pool of size 1
/// never does; and on a pool of size 1 the converter has been run on every file
/// that the scan found.
pub open spec fn is_run_result<S: SingleFileProcProvider>(
    scan: Result<(Set<Identity>, Seq<RejectionView>), ErrorView>,
    config: Config,
    pool_size: u8,
    res: Result<nat, ErrorView>,
) -> bool {
    match scan {
        Err(e) => res == Err::<nat, ErrorView>(e),
        Ok((files, _)) => if pool_size == 0 {
            res == Err::<nat, ErrorView>(ErrorView::ConcurrencyError(no_threads_message()))
        } else {
            &&& match res {
                Ok(count) => count == files.len(),
                Err(e) => e is ConcurrencyError && pool_size != 1,
            }
            &&& pool_size == 1 ==> all_converted::<S>(files, config)
        },
    }
}

/// Converts the file, or the files of the directory, that the settings name:
/// scans, then hands each file found to a job that runs `converter` on it, and
/// returns how many files were handed over. `listing` holds the paths of the
/// working directory's direct children, or the error of listing them; it is not
/// read where the working path is a regular file. `available_parallelism` is the
/// number of threads that the machine offers, 0 where it offers none.
pub fn run<S: SingleFileProcProvider + Clone>(
    config: Config,
    listing: Result<Vec<String>, IoError>,
    available_parallelism: usize,
    converter: S,
) -> (res: Result<usize, Vex2PdfError>)
    ensures
        exists|root: ProbedView, probed: Result<Seq<ProbedView>, (IoErrorKind, Seq<char>)>|
            {
                &&& root.0 == config.working_path@
                &&& is_probing_of(probed, listing_view(listing))
                &&& is_run_result::<S>(
                    #[trigger] scan_outcome(
                        root,
                        probed,
                        switched_off_kinds(opt_switches_view(config.file_types_to_process)),
                    ),
                    config,
                    resolved_size(requested_jobs(config.max_jobs), available_parallelism as nat),
                    run_result_view(res),
                )
            },
{
    let scanner = DefaultFilesProcessor::new(config).with_listing(listing);
    match scanner.find_files() {
        Ok(ready) => ready.with_converter(converter, available_parallelism).process(),
        Err(e) => Err(e),
    }
}

} // verus!
