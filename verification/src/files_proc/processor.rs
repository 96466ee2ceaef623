//! The pipeline: the scan that finds the files, and the dispatch that hands
//! each of them to a job.
use crate::files_proc::model::file_ident::{kind_of_path, BomFileIdentifier};
use crate::files_proc::model::files_pending_proc::{
    identities, insertion_outcome, set_after_insertion, FilesPendingProc, Identity,
};
use crate::files_proc::model::input_file_type::InputFileType;
use crate::files_proc::traits::{
    FileSearchProvider, MultipleFilesProcProvider, SingleFileProcProvider,
};
use crate::lib_utils::concurrency::threadpool::{
    no_threads_message, requested_jobs, resolved_size, Dispatcher,
};
use crate::lib_utils::config::{opt_switches_view, switched_off_kinds, Config};
use crate::lib_utils::errors::{ErrorView, IoError, IoErrorKind, Vex2PdfError};
use crate::lib_utils::paths::{path_exists, path_is_file};
use crate::lib_utils::run_utils::{get_output_pdf_path_probed, output_pdf_path};
use crate::lib_utils::text::{decimal, usize_to_decimal};
use std::sync::Arc;
use vstd::prelude::*;

verus! {

/// A path with what the filesystem said of it: whether it names a regular
/// file, and whether it names anything at all.
#[derive(Debug)]
pub struct ProbedPath {
    pub path: String,
    pub is_file: bool,
    pub exists: bool,
}

/// The mathematical value of a [`ProbedPath`].
pub type ProbedView = (Seq<char>, bool, bool);

impl View for ProbedPath {
    type V = ProbedView;

    open spec fn view(&self) -> ProbedView {
        (self.path@, self.is_file, self.exists)
    }
}

/// A file that the scan passed over, with the reason.
#[derive(Debug)]
pub struct Rejection {
    pub path: String,
    pub error: Vex2PdfError,
}

/// The mathematical value of a [`Rejection`].
pub type RejectionView = (Seq<char>, ErrorView);

impl View for Rejection {
    type V = RejectionView;

    open spec fn view(&self) -> RejectionView {
        (self.path@, self.error@)
    }
}

/// The values of a sequence of probed paths, in order.
pub open spec fn probes_view(probes: Seq<ProbedPath>) -> Seq<ProbedView> {
    probes.map_values(|p: ProbedPath| p@)
}

/// The values of a sequence of rejections, in order.
pub open spec fn rejections_view(rejected: Seq<Rejection>) -> Seq<RejectionView> {
    rejected.map_values(|r: Rejection| r@)
}

/// The paths of a sequence of probed paths, in order.
pub open spec fn probed_paths(probes: Seq<ProbedView>) -> Seq<Seq<char>> {
    probes.map_values(|p: ProbedView| p.0)
}

/// The texts of a sequence of strings, in order.
pub open spec fn texts(paths: Seq<String>) -> Seq<Seq<char>> {
    paths.map_values(|p: String| p@)
}

/// The files that a sweep over a directory's entries accepts: of the entries
/// that are regular files, those whose insertion succeeds. Directories and
/// other entries are passed over in silence.
pub open spec fn accepted_files(entries: Seq<ProbedView>, ignored: Set<InputFileType>) -> Set<
    Identity,
>
    decreases entries.len(),
{
    if entries.len() == 0 {
        Set::empty()
    } else {
        let before = accepted_files(entries.drop_last(), ignored);
        let entry = entries.last();
        if entry.1 {
            set_after_insertion(before, entry.0, entry.2, ignored)
        } else {
            before
        }
    }
}

/// The files that a sweep over a directory's entries rejects, in the order of the
/// entries, each with the error of its insertion.
pub open spec fn rejected_files(entries: Seq<ProbedView>, ignored: Set<InputFileType>) -> Seq<
    RejectionView,
>
    decreases entries.len(),
{
    if entries.len() == 0 {
        Seq::empty()
    } else {
        let before = rejected_files(entries.drop_last(), ignored);
        let entry = entries.last();
        if entry.1 {
            match insertion_outcome(entry.0, entry.2, ignored) {
                Err(e) => before.push((entry.0, e)),
                Ok(_) => before,
            }
        } else {
            before
        }
    }
}

/// The result of a scan. A root that is a regular file is inserted alone, and
/// its rejection is the scan's error. Any other root is a directory: if its
/// entries could not be listed that is the scan's error, else the scan succeeds
/// with the files that the sweep accepts and the list of those it rejects,
/// however many were rejected.
pub open spec fn scan_outcome(
    root: ProbedView,
    listing: Result<Seq<ProbedView>, (IoErrorKind, Seq<char>)>,
    ignored: Set<InputFileType>,
) -> Result<(Set<Identity>, Seq<RejectionView>), ErrorView> {
    if root.1 {
        match insertion_outcome(root.0, root.2, ignored) {
            Ok(_) => Ok((set![(root.0, kind_of_path(root.0))], Seq::empty())),
            Err(e) => Err(e),
        }
    } else {
        match listing {
            Ok(entries) => Ok((accepted_files(entries, ignored), rejected_files(entries, ignored))),
            Err(e) => Err(ErrorView::Io(e.0, e.1)),
        }
    }
}

/// Whether a sweep accepts an entry: the entry is a regular file, and its
/// insertion succeeds.
pub open spec fn is_accepted(entry: ProbedView, ignored: Set<InputFileType>) -> bool {
    entry.1 && insertion_outcome(entry.0, entry.2, ignored) is Ok
}

/// The identity that an entry stands for.
pub open spec fn identity_of(entry: ProbedView) -> Identity {
    (entry.0, kind_of_path(entry.0))
}

/// Whether one of the entries is accepted and stands for the given identity.
pub open spec fn has_accepted_entry(
    entries: Seq<ProbedView>,
    ignored: Set<InputFileType>,
    id: Identity,
) -> bool {
    exists|i: int|
        0 <= i < entries.len() && is_accepted(#[trigger] entries[i], ignored) && id == identity_of(
            entries[i],
        )
}

/// A sweep accepts exactly the identities of the entries that it accepts,
/// whatever their order and however often a path occurs: what is no regular
/// file, such as a subdirectory, contributes nothing.
pub proof fn lemma_sweep_accepts_the_accepted_entries(
    entries: Seq<ProbedView>,
    ignored: Set<InputFileType>,
    id: Identity,
)
    ensures
        accepted_files(entries, ignored).contains(id) <==> has_accepted_entry(entries, ignored, id),
    decreases entries.len(),
{
    if entries.len() > 0 {
        let front = entries.drop_last();
        let last = entries.last();
        let before = accepted_files(front, ignored);
        lemma_sweep_accepts_the_accepted_entries(front, ignored, id);
        if accepted_files(entries, ignored).contains(id) {
            if before.contains(id) {
                let i = choose|i: int|
                    0 <= i < front.len() && is_accepted(#[trigger] front[i], ignored) && id
                        == identity_of(front[i]);
            } else {
            }
        }
        if has_accepted_entry(entries, ignored, id) {
            let i = choose|i: int|
                0 <= i < entries.len() && is_accepted(#[trigger] entries[i], ignored) && id
                    == identity_of(entries[i]);
            if i < front.len() {
                assert(front[i] == entries[i]);
            } else {
            }
        }
    }
}

/// Whatever the filesystem answers, a sweep accepts only files of a recognised
/// kind that is not among the ignored ones.
pub proof fn lemma_sweep_accepts_no_ignored_kind(
    entries: Seq<ProbedView>,
    ignored: Set<InputFileType>,
)
    ensures
        accepted_files(entries, ignored).finite(),
        forall|id: Identity| #[trigger]
            accepted_files(entries, ignored).contains(id) ==> id.1.is_recognised()
                && !ignored.contains(id.1),
    decreases entries.len(),
{
    if entries.len() > 0 {
        lemma_sweep_accepts_no_ignored_kind(entries.drop_last(), ignored);
    }
}

/// Whatever the filesystem answers and whichever kinds are ignored, a scan that
/// succeeds holds finitely many files, each of a recognised kind that is not
/// among the ignored ones: a file of an ignored kind is never in the result, and
/// no file of an unsupported kind reaches the jobs.
pub proof fn lemma_scan_holds_no_ignored_kind(
    root: ProbedView,
    listing: Result<Seq<ProbedView>, (IoErrorKind, Seq<char>)>,
    ignored: Set<InputFileType>,
)
    ensures
        scan_outcome(root, listing, ignored) matches Ok((files, _)) ==> files.finite()
            && forall|id: Identity| #[trigger]
            files.contains(id) ==> id.1.is_recognised() && !ignored.contains(id.1),
{
    if !root.1 {
        if let Ok(entries) = listing {
            lemma_sweep_accepts_no_ignored_kind(entries, ignored);
        }
    }
}

/// A scan of a directory succeeds even if every file in it is rejected: only the
/// failure to list the directory fails the scan. A scan of a single file fails
/// exactly when that file is rejected.
pub proof fn lemma_scan_fails_only_on_root(
    root: ProbedView,
    listing: Result<Seq<ProbedView>, (IoErrorKind, Seq<char>)>,
    ignored: Set<InputFileType>,
)
    ensures
        root.1 ==> (scan_outcome(root, listing, ignored) is Err <==> insertion_outcome(
            root.0,
            root.2,
            ignored,
        ) is Err),
        !root.1 ==> (scan_outcome(root, listing, ignored) is Err <==> listing is Err),
{
}

/// The mathematical value of a probed listing.
pub open spec fn probed_listing_view(listing: Result<Vec<ProbedPath>, IoError>) -> Result<
    Seq<ProbedView>,
    (IoErrorKind, Seq<char>),
> {
    match listing {
        Ok(entries) => Ok(probes_view(entries@)),
        Err(e) => Err(e@),
    }
}

/// The mathematical value of a scan's result.
pub open spec fn scan_result_view(res: Result<(FilesPendingProc, Vec<Rejection>), Vex2PdfError>)
    -> Result<(Set<Identity>, Seq<RejectionView>), ErrorView> {
    match res {
        Ok((files, rejected)) => Ok((files@, rejections_view(rejected@))),
        Err(e) => Err(e@),
    }
}

/// Scans a root whose filesystem answers are known: `root` with its answers, and,
/// for a root that is no regular file, the direct children of the directory with
/// theirs, or the error of listing them.
pub fn scan_probed(
    root: &ProbedPath,
    listing: Result<Vec<ProbedPath>, IoError>,
    ignored_types: &Vec<InputFileType>,
) -> (res: Result<(FilesPendingProc, Vec<Rejection>), Vex2PdfError>)
    ensures
        scan_result_view(res) == scan_outcome(
            root@,
            probed_listing_view(listing),
            ignored_types@.to_set(),
        ),
{
    let ghost ignored = ignored_types@.to_set();
    let mut pending = FilesPendingProc::new();
    let mut rejected: Vec<Rejection> = Vec::new();
    if root.is_file {
        match pending.add_sup_file_ignore_probed(root.path.as_str(), root.exists, ignored_types) {
            Ok(()) => {
                assert(rejections_view(rejected@) =~= Seq::<RejectionView>::empty());
                return Ok((pending, rejected));
            },
            Err(e) => {
                return Err(e);
            },
        }
    }
    let entries = match listing {
        Ok(entries) => entries,
        Err(e) => {
            return Err(Vex2PdfError::Io(e));
        },
    };
    let ghost probes = probes_view(entries@);
    let mut i: usize = 0;
    while i < entries.len()
        invariant
            i <= entries.len(),
            probes == probes_view(entries@),
            ignored == ignored_types@.to_set(),
            pending@ == accepted_files(probes.take(i as int), ignored),
            rejections_view(rejected@) == rejected_files(probes.take(i as int), ignored),
        decreases entries.len() - i,
    {
        proof {
            assert(probes.take(i + 1).drop_last() =~= probes.take(i as int));
        }
        let entry = &entries[i];
        if entry.is_file {
            match pending.add_sup_file_ignore_probed(
                entry.path.as_str(),
                entry.exists,
                ignored_types,
            ) {
                Ok(()) => {},
                Err(e) => {
                    rejected.push(Rejection { path: entry.path.clone(), error: e });
                },
            }
        }
        i += 1;
    }
    assert(probes.take(i as int) =~= probes);
    Ok((pending, rejected))
}

/// The lines that report what a scan found: one count for each recognised
/// kind, or one line that says that nothing was found.
pub open spec fn scan_summary(files: Set<Identity>) -> Seq<Seq<char>> {
    if files.len() == 0 {
        seq!["No parseable files in selected path"@]
    } else {
        seq![
            "Found "@ + decimal(files.filter(|id: Identity| id.1 == InputFileType::JSON).len())
                + " JSON files"@,
            "Found "@ + decimal(files.filter(|id: Identity| id.1 == InputFileType::XML).len())
                + " XML files"@,
        ]
    }
}

/// The line that reports how many files were handed to jobs.
pub open spec fn processed_line(count: nat) -> Seq<char> {
    "Processed "@ + decimal(count) + " files"@
}

/// What the listing of a directory becomes when each entry is given answers
/// of the filesystem: the same error, or the same paths in the same order.
pub open spec fn is_probing_of(
    probed: Result<Seq<ProbedView>, (IoErrorKind, Seq<char>)>,
    listing: Result<Seq<Seq<char>>, (IoErrorKind, Seq<char>)>,
) -> bool {
    match listing {
        Ok(paths) => probed matches Ok(entries) && probed_paths(entries) == paths,
        Err(e) => probed == Err::<Seq<ProbedView>, (IoErrorKind, Seq<char>)>(e),
    }
}

/// A listing with every entry marked as nothing known of: what stands in for
/// the answers where a scan does not read the listing.
pub open spec fn unprobed(listing: Result<Seq<Seq<char>>, (IoErrorKind, Seq<char>)>) -> Result<
    Seq<ProbedView>,
    (IoErrorKind, Seq<char>),
> {
    match listing {
        Ok(paths) => Ok(paths.map_values(|p: Seq<char>| (p, false, false))),
        Err(e) => Err(e),
    }
}

/// The mathematical value of a directory listing.
pub open spec fn listing_view(listing: Result<Vec<String>, IoError>) -> Result<
    Seq<Seq<char>>,
    (IoErrorKind, Seq<char>),
> {
    match listing {
        Ok(paths) => Ok(texts(paths@)),
        Err(e) => Err(e@),
    }
}

/// The scanner: the settings of the run and, where the working path is a
/// directory, the paths of its direct children as the caller has listed them.
#[derive(Debug)]
pub struct DefaultFilesProcessor {
    config: Config,
    listing: Result<Vec<String>, IoError>,
}

/// The outcome of a successful scan, ready to be processed.
#[derive(Debug)]
pub struct ProcessorReady {
    config: Arc<Config>,
    files: FilesPendingProc,
    rejected: Vec<Rejection>,
}

/// The mathematical value of what [`DefaultFilesProcessor::find_files`] returns.
pub open spec fn ready_view(res: Result<ProcessorReady, Vex2PdfError>) -> Result<
    (Set<Identity>, Seq<RejectionView>),
    ErrorView,
> {
    match res {
        Ok(ready) => Ok((ready.files_view(), ready.rejected_view())),
        Err(e) => Err(e@),
    }
}

/// Asks the filesystem about one path: whether it names a regular file and,
/// if so, whether it still names anything.
fn probe_path(path: &str) -> (probed: ProbedPath)
    ensures
        probed@.0 == path@,
{
    let is_file = path_is_file(path);
    let exists = if is_file {
        path_exists(path)
    } else {
        false
    };
    ProbedPath { path: String::from_str(path), is_file, exists }
}

impl DefaultFilesProcessor {
    /// A scanner for the given settings, with no directory listing yet.
    pub fn new(config: Config) -> (scanner: Self)
        ensures
            scanner.config_view() == config,
            scanner.listing() == Ok::<Seq<Seq<char>>, (IoErrorKind, Seq<char>)>(Seq::empty()),
    {
        let scanner = Self { config, listing: Ok(Vec::new()) };
        assert(texts(Seq::<String>::empty()) =~= Seq::<Seq<char>>::empty());
        scanner
    }

    /// Gives the scanner the paths of the working directory's direct children, or
    /// the error of listing them.
    pub fn with_listing(self, listing: Result<Vec<String>, IoError>) -> (scanner: Self)
        ensures
            scanner.config_view() == self.config_view(),
            scanner.listing() == listing_view(listing),
    {
        Self { config: self.config, listing }
    }

    /// The settings of the run.
    pub closed spec fn config_view(&self) -> Config {
        self.config
    }

    /// The listing that the scan will go through.
    pub closed spec fn listing(&self) -> Result<Seq<Seq<char>>, (IoErrorKind, Seq<char>)> {
        listing_view(self.listing)
    }

    /// The settings of the run.
    pub fn config(&self) -> (config: &Config)
        ensures
            *config == self.config_view(),
    {
        &self.config
    }
}

impl FileSearchProvider for DefaultFilesProcessor {
    type OkType = ProcessorReady;

    type ErrType = Vex2PdfError;

    /// Scans the working path. The filesystem decides which paths are regular
    /// files and which exist; whatever it answers, the result is that of
    /// [`scan_probed`] for the working path and the listing with those answers,
    /// and the kinds that the settings switch off. The entries of the listing
    /// are asked about only where the working path is no regular file.
    fn find_files(self) -> (res: Result<ProcessorReady, Vex2PdfError>)
        ensures
            exists|root: ProbedView, probed: Result<Seq<ProbedView>, (IoErrorKind, Seq<char>)>|
                {
                    &&& root.0 == self.config_view().working_path@
                    &&& is_probing_of(probed, self.listing())
                    &&& ready_view(res) == #[trigger] scan_outcome(
                        root,
                        probed,
                        switched_off_kinds(
                            opt_switches_view(self.config_view().file_types_to_process),
                        ),
                    )
                },
            res matches Ok(ready) ==> ready.config_view() == self.config_view(),
    {
        let ignored = self.config.ignored_types();
        let root = probe_path(self.config.working_path.as_str());
        let ghost witness: Result<Seq<ProbedView>, (IoErrorKind, Seq<char>)>;
        let probed: Result<Vec<ProbedPath>, IoError> = if root.is_file {
            proof {
                witness = unprobed(listing_view(self.listing));
                assert(is_probing_of(witness, listing_view(self.listing))) by {
                    if let Ok(paths) = listing_view(self.listing) {
                        assert(probed_paths(paths.map_values(|p: Seq<char>| (p, false, false)))
                            =~= paths);
                    }
                }
            }
            Ok(Vec::new())
        } else {
            let probed = match self.listing {
                Err(e) => Err(e),
                Ok(paths) => {
                    let mut entries: Vec<ProbedPath> = Vec::new();
                    let mut i: usize = 0;
                    while i < paths.len()
                        invariant
                            i <= paths.len(),
                            probed_paths(probes_view(entries@)) == texts(paths@).take(i as int),
                        decreases paths.len() - i,
                    {
                        let ghost before = probed_paths(probes_view(entries@));
                        let entry = probe_path(paths[i].as_str());
                        entries.push(entry);
                        assert(probed_paths(probes_view(entries@)) =~= before.push(
                            paths@[i as int]@,
                        ));
                        i += 1;
                    }
                    assert(texts(paths@).take(i as int) =~= texts(paths@));
                    Ok(entries)
                },
            };
            proof {
                witness = probed_listing_view(probed);
            }
            probed
        };
        match scan_probed(&root, probed, &ignored) {
            Ok((files, rejected)) => Ok(
                ProcessorReady { config: Arc::new(self.config), files, rejected },
            ),
            Err(e) => Err(e),
        }
    }
}

impl ProcessorReady {
    /// The settings of the run.
    pub closed spec fn config_view(&self) -> Config {
        *self.config
    }

    /// The files that wait to be processed.
    pub closed spec fn files_view(&self) -> Set<Identity> {
        self.files@
    }

    /// The files that the scan passed over, with the reasons.
    pub closed spec fn rejected_view(&self) -> Seq<RejectionView> {
        rejections_view(self.rejected@)
    }

    /// The settings of the run.
    pub fn config(&self) -> (config: &Config)
        ensures
            *config == self.config_view(),
    {
        &self.config
    }

    /// The files that wait to be processed.
    pub fn files(&self) -> (files: &FilesPendingProc)
        ensures
            files@ == self.files_view(),
    {
        &self.files
    }

    /// The files that the scan passed over, with the reasons: to be shown as
    /// notes where the error is informational, as warnings where it is not.
    pub fn rejected(&self) -> (rejected: &Vec<Rejection>)
        ensures
            rejections_view(rejected@) == self.rejected_view(),
    {
        &self.rejected
    }

    /// The lines that report what the scan found.
    pub fn summary(&self) -> (lines: Vec<String>)
        ensures
            texts(lines@) == scan_summary(self.files_view()),
    {
        let mut lines: Vec<String> = Vec::new();
        if self.files.get_file_count() == 0 {
            lines.push(String::from_str("No parseable files in selected path"));
        } else {
            let json = usize_to_decimal(self.files.get_file_count_by_type(InputFileType::JSON));
            let mut first = String::from_str("Found ");
            first.append(json.as_str());
            first.append(" JSON files");
            let xml = usize_to_decimal(self.files.get_file_count_by_type(InputFileType::XML));
            let mut second = String::from_str("Found ");
            second.append(xml.as_str());
            second.append(" XML files");
            lines.push(first);
            lines.push(second);
        }
        lines
    }

    /// Makes the jobs of the batch: one for each file that waits, none for any
    /// other, each with the settings of the run. Each file goes to exactly one
    /// job, which owns it from then on.
    pub fn into_jobs(self) -> (jobs: Vec<Job>)
        ensures
            job_files(jobs@).to_set() == self.files_view(),
            job_files(jobs@).no_duplicates(),
            jobs@.len() == self.files_view().len(),
            forall|i: int|
                0 <= i < jobs@.len() ==> (#[trigger] jobs@[i]).config_view() == self.config_view()
                    && jobs@[i].file_view().1.is_recognised(),
    {
        let config = self.config;
        let files = self.files.into_files();
        let ghost all = files@;
        let mut jobs: Vec<Job> = Vec::with_capacity(files.len());
        for file in it: files
            invariant
                it.seq() == all,
                job_files(jobs@) == identities(all.take(it.index() as int)),
                forall|i: int|
                    0 <= i < jobs@.len() ==> (#[trigger] jobs@[i]).config_view() == *config,
        {
            let ghost before = job_files(jobs@);
            let job = Job { file, config: Arc::clone(&config) };
            jobs.push(job);
            proof {
                assert(job_files(jobs@) =~= before.push(file@));
            }
        }
        proof {
            assert(all.take(all.len() as int) =~= all);
            assert forall|i: int| 0 <= i < jobs@.len() implies (#[trigger] jobs@[i]).file_view().1.is_recognised() by {
                assert(job_files(jobs@)[i] == all[i]@);
            }
        }
        jobs
    }

    /// Hands every file to a job on the given pool, one job for each file, and
    /// returns how many were handed over. A job runs the converter on its file
    /// and drops the converter's result: a job that fails stops no other. The
    /// first job that the pool does not take ends the run with the pool's error;
    /// a disabled pool takes every job, and has run each to its end before the
    /// next is handed over.
    pub fn dispatch<S: SingleFileProcProvider + Clone>(self, converter: S, pool: &Dispatcher) -> (res:
        Result<usize, Vex2PdfError>)
        ensures
            pool.mode() is Disabled ==> res is Ok,
            pool.mode() is Disabled ==> all_converted::<S>(self.files_view(), self.config_view()),
            res matches Ok(count) ==> count == self.files_view().len(),
            res matches Err(e) ==> e@ is ConcurrencyError,
    {
        let ghost settings = self.config_view();
        let mut jobs = self.into_jobs();
        let ghost ids = job_files(jobs@);
        let ghost total = jobs.len();
        let mut handed: usize = 0;
        loop
            invariant
                handed + jobs.len() == total,
                total == ids.len(),
                job_files(jobs@) == ids.take(jobs.len() as int),
                forall|i: int|
                    0 <= i < jobs@.len() ==> (#[trigger] jobs@[i]).config_view() == settings,
                pool.mode() is Disabled ==> forall|k: int|
                    jobs.len() <= k < ids.len() ==> converter_has_run::<S>(#[trigger] ids[k], settings),
            ensures
                handed == total,
                total == ids.len(),
                pool.mode() is Disabled ==> forall|k: int|
                    0 <= k < ids.len() ==> converter_has_run::<S>(#[trigger] ids[k], settings),
            decreases jobs.len(),
        {
            let ghost waiting = jobs@;
            let job = match jobs.pop() {
                Some(job) => job,
                None => {
                    break ;
                },
            };
            let ghost id = job.file_view();
            proof {
                assert(job_files(waiting)[jobs.len() as int] == id);
                assert(job_files(jobs@) =~= ids.take(jobs.len() as int));
            }
            let single_file_proc = converter.clone();
            let run_one = move || -> (done: ())
                ensures
                    converter_has_run::<S>(id, settings),
                {
                    let outcome = job.run(&single_file_proc);
                    assert(call_ensures(
                        S::process_single_file,
                        (&single_file_proc, job.owned_file(), job.shared_config()),
                        outcome,
                    ));
                };
            match pool.execute(run_one) {
                Ok(()) => {},
                Err(e) => {
                    return Err(e);
                },
            }
            handed += 1;
        }
        proof {
            if pool.mode() is Disabled {
                assert forall|id: Identity| #[trigger]
                    self.files_view().contains(id) implies converter_has_run::<S>(id, settings) by {
                    let k = choose|k: int| 0 <= k < ids.len() && ids[k] == id;
                    assert(converter_has_run::<S>(ids[k], settings));
                }
            }
        }
        Ok(handed)
    }

    /// The line that reports how many files were handed to jobs.
    pub fn processed_message(count: usize) -> (line: String)
        ensures
            line@ == processed_line(count as nat),
    {
        let mut line = String::from_str("Processed ");
        line.append(usize_to_decimal(count).as_str());
        line.append(" files");
        line
    }
}

/// Whether the converter has been run on a file by the given settings: a call
/// of its `process_single_file` on an identifier of that file, with those
/// settings, has returned.
pub open spec fn converter_has_run<S: SingleFileProcProvider>(id: Identity, config: Config) -> bool {
    exists|c: S, file: BomFileIdentifier, shared: Arc<Config>, r: Result<(), Vex2PdfError>|
        file@ == id && *shared == config && #[trigger] call_ensures(
            S::process_single_file,
            (&c, file, shared),
            r,
        )
}

/// Whether the converter has been run on each of the files by the given
/// settings: none was skipped, whatever became of the others.
pub open spec fn all_converted<S: SingleFileProcProvider>(
    files: Set<Identity>,
    config: Config,
) -> bool {
    forall|id: Identity| #[trigger] files.contains(id) ==> converter_has_run::<S>(id, config)
}

/// One unit of work: convert this file by these settings. A job owns its file.
#[derive(Debug)]
pub struct Job {
    file: BomFileIdentifier,
    config: Arc<Config>,
}

/// The files of a sequence of jobs, in order.
pub open spec fn job_files(jobs: Seq<Job>) -> Seq<Identity> {
    jobs.map_values(|job: Job| job.file_view())
}

impl Job {
    /// The file that the job converts.
    pub open spec fn file_view(&self) -> Identity {
        self.owned_file()@
    }

    /// The settings that the job goes by.
    pub open spec fn config_view(&self) -> Config {
        *self.shared_config()
    }

    /// The file that the job converts.
    pub fn file(&self) -> (file: &BomFileIdentifier)
        ensures
            *file == self.owned_file(),
    {
        &self.file
    }

    /// Runs the converter on the job's file, once. What the converter returns is
    /// the job's result.
    pub fn run<S: SingleFileProcProvider>(self, converter: &S) -> (res: Result<(), Vex2PdfError>)
        ensures
            call_ensures(
                S::process_single_file,
                (converter, self.owned_file(), self.shared_config()),
                res,
            ),
    {
        converter.process_single_file(self.file, self.config)
    }

    /// The identifier that the job owns and hands to the converter.
    pub closed spec fn owned_file(&self) -> BomFileIdentifier {
        self.file
    }

    /// The settings that the job shares with the other jobs of its batch and
    /// hands to the converter.
    pub closed spec fn shared_config(&self) -> Arc<Config> {
        self.config
    }
}

/// The scan's outcome together with the converter that each job runs and the
/// number of threads that the machine offers.
pub struct BatchProcessor<S> {
    ready: ProcessorReady,
    converter: S,
    available_parallelism: usize,
}

impl ProcessorReady {
    /// Joins the scan's outcome with the converter that each job runs and the
    /// number of threads that the machine offers, 0 where it offers none.
    pub fn with_converter<S: SingleFileProcProvider + Clone>(
        self,
        converter: S,
        available_parallelism: usize,
    ) -> (batch: BatchProcessor<S>)
        ensures
            batch.ready_view() == self,
            batch.available() == available_parallelism,
    {
        BatchProcessor { ready: self, converter, available_parallelism }
    }
}

impl<S: SingleFileProcProvider + Clone> BatchProcessor<S> {
    /// The scan's outcome.
    pub closed spec fn ready_view(&self) -> ProcessorReady {
        self.ready
    }

    /// The number of threads that the machine offers.
    pub closed spec fn available(&self) -> usize {
        self.available_parallelism
    }

    /// The size of the pool that the batch runs on: 0 where the settings ask for
    /// all that the machine offers and it offers nothing.
    pub open spec fn pool_size(&self) -> u8 {
        resolved_size(
            requested_jobs(self.ready_view().config_view().max_jobs),
            self.available() as nat,
        )
    }
}

impl<S: SingleFileProcProvider + Clone> MultipleFilesProcProvider for BatchProcessor<S> {
    type OkType = usize;

    type ErrType = Vex2PdfError;

    /// Makes the pool that the settings ask for, hands every file to a job on
    /// it, shuts the pool down, which waits for the jobs, and returns how many
    /// files were handed over. Without a thread to run on nothing is processed.
    fn process(self) -> (res: Result<usize, Vex2PdfError>)
        ensures
            self.pool_size() == 0 ==> (res matches Err(e) && e@ == ErrorView::ConcurrencyError(
                no_threads_message(),
            )),
            self.pool_size() == 1 ==> res is Ok,
            self.pool_size() == 1 ==> all_converted::<S>(
                self.ready_view().files_view(),
                self.ready_view().config_view(),
            ),
            res matches Ok(count) ==> count == self.ready_view().files_view().len(),
            res matches Err(e) ==> e@ is ConcurrencyError,
    {
        let pool = match Dispatcher::for_jobs(
            self.ready.config().max_jobs,
            self.available_parallelism,
        ) {
            Ok(pool) => pool,
            Err(e) => {
                return Err(e);
            },
        };
        let res = self.ready.dispatch(self.converter, &pool);
        pool.shutdown();
        res
    }
}

/// What a job needs to go on after the document was parsed: the input and the
/// directory for the report.
#[derive(Debug)]
pub struct ParseStage {
    file: BomFileIdentifier,
    output_dir: String,
}

/// What a job needs to go on after the report was drawn: where it was to go.
#[derive(Debug)]
pub struct RenderStage {
    destination: String,
}

/// How a job ended, and the line that tells the operator.
#[derive(Debug)]
pub struct JobReport {
    /// The job's result. A report that could not be drawn is no failure of the
    /// job.
    pub result: Result<(), Vex2PdfError>,
    /// The line for the log.
    pub note: String,
    /// Whether the line is a warning.
    pub is_warning: bool,
}

/// The line that tells how the drawing of a report ended.
pub open spec fn render_note(destination: Seq<char>, failure: Option<Seq<char>>) -> Seq<char> {
    match failure {
        Some(reason) => "Failed to generate PDF for "@ + destination + ": "@ + reason,
        None => "Successfully generated PDF: "@ + destination,
    }
}

/// Starts the job for a file: picks the parser by the file's kind. A file of no
/// recognised kind cannot come out of a scan, and is refused all the same.
pub fn begin_job(file: BomFileIdentifier, config: &Config) -> (res: Result<
    ParseStage,
    Vex2PdfError,
>)
    ensures
        file@.1.is_recognised() ==> (res matches Ok(stage) && stage.file_view() == file@
            && stage.output_dir_view() == config.output_dir@),
        !file@.1.is_recognised() ==> (res matches Err(e) && e@ == ErrorView::UnsupportedFileType),
{
    if !file.is_supported_type() {
        return Err(Vex2PdfError::UnsupportedFileType);
    }
    Ok(ParseStage { file, output_dir: config.output_dir.clone() })
}

impl ParseStage {
    /// The input file.
    pub closed spec fn file_view(&self) -> Identity {
        self.file@
    }

    /// The directory for the report.
    pub closed spec fn output_dir_view(&self) -> Seq<char> {
        self.output_dir@
    }

    /// The path of the document to read.
    pub fn input(&self) -> (path: &String)
        ensures
            path@ == self.file_view().0,
    {
        self.file.get_path()
    }

    /// The kind of parser to use.
    pub fn kind(&self) -> (kind: InputFileType)
        ensures
            kind == self.file_view().1,
    {
        *self.file.get_type()
    }

    /// Goes on after the parser has ended, given whether the directory for the
    /// report names a regular file: a parser's failure ends the job with that
    /// failure, never to be tried again; else the report's path is derived, or
    /// the job ends with the error of deriving it.
    pub fn finish_parse_probed(self, failure: Option<String>, dest_is_file: bool) -> (res: Result<
        RenderStage,
        Vex2PdfError,
    >)
        ensures
            match failure {
                Some(reason) => res matches Err(e) && e@ == ErrorView::Parse(reason@),
                None => match output_pdf_path(
                    Some((self.output_dir_view(), dest_is_file)),
                    self.file_view().0,
                ) {
                    Ok(path) => res matches Ok(stage) && stage.destination_view() == path,
                    Err(error) => res matches Err(e) && e@ == error,
                },
            },
    {
        match failure {
            Some(reason) => Err(Vex2PdfError::Parse(reason)),
            None => match get_output_pdf_path_probed(
                Some(self.output_dir.as_str()),
                dest_is_file,
                self.file.get_path().as_str(),
            ) {
                Ok(destination) => Ok(RenderStage { destination }),
                Err(e) => Err(e),
            },
        }
    }

    /// Goes on after the parser has ended. The filesystem decides whether the
    /// directory for the report names a regular file; whatever it answers, the
    /// result is that of [`ParseStage::finish_parse_probed`] for that answer.
    pub fn finish_parse(self, failure: Option<String>) -> (res: Result<RenderStage, Vex2PdfError>)
        ensures
            failure matches Some(reason) ==> (res matches Err(e) && e@ == ErrorView::Parse(
                reason@,
            )),
            failure is None ==> exists|is_file: bool|
                match #[trigger] output_pdf_path(
                    Some((self.output_dir_view(), is_file)),
                    self.file_view().0,
                ) {
                    Ok(path) => res matches Ok(stage) && stage.destination_view() == path,
                    Err(error) => res matches Err(e) && e@ == error,
                },
    {
        let dest_is_file = match failure {
            Some(_) => false,
            None => path_is_file(self.output_dir.as_str()),
        };
        self.finish_parse_probed(failure, dest_is_file)
    }
}

impl RenderStage {
    /// Where the report goes.
    pub closed spec fn destination_view(&self) -> Seq<char> {
        self.destination@
    }

    /// Where the report goes.
    pub fn destination(&self) -> (path: &String)
        ensures
            path@ == self.destination_view(),
    {
        &self.destination
    }

    /// Ends the job after the renderer has ended. The job succeeds either way: a
    /// report that could not be drawn is a warning in the log.
    pub fn finish_render(self, failure: Option<String>) -> (report: JobReport)
        ensures
            report.result is Ok,
            report.is_warning == failure is Some,
            report.note@ == render_note(
                self.destination_view(),
                match failure {
                    Some(reason) => Some(reason@),
                    None => None,
                },
            ),
    {
        match failure {
            Some(reason) => {
                let mut note = String::from_str("Failed to generate PDF for ");
                note.append(self.destination.as_str());
                note.append(": ");
                note.append(reason.as_str());
                JobReport { result: Ok(()), note, is_warning: true }
            },
            None => {
                let mut note = String::from_str("Successfully generated PDF: ");
                note.append(self.destination.as_str());
                JobReport { result: Ok(()), note, is_warning: false }
            },
        }
    }
}

} // verus!
