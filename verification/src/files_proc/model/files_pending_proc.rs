//! The set of input files that wait to be processed.
use crate::files_proc::model::file_ident::{kind_of_path, BomFileIdentifier};
use crate::files_proc::model::input_file_type::InputFileType;
use crate::lib_utils::errors::{ErrorView, IoErrorKind, Vex2PdfError};
use crate::lib_utils::paths::path_exists;
use vstd::prelude::*;
use vstd::seq_lib::seq_to_set_is_finite;
use vstd::std_specs::iter::IteratorSpec;

verus! {

/// The mathematical value of a [`BomFileIdentifier`]: its path and its kind.
pub type Identity = (Seq<char>, InputFileType);

/// The views of a sequence of identifiers, in order.
pub open spec fn identities(files: Seq<BomFileIdentifier>) -> Seq<Identity> {
    files.map_values(|f: BomFileIdentifier| f@)
}

/// The mathematical value of the result of an insertion.
pub open spec fn unit_result_view(res: Result<(), Vex2PdfError>) -> Result<(), ErrorView> {
    match res {
        Ok(_) => Ok(()),
        Err(e) => Err(e@),
    }
}

/// What becomes of the attempt to insert a path, given whether the path exists
/// and which kinds the user has switched off: a missing path is not found, a
/// path of no recognised kind is unsupported, a path of a switched-off kind is
/// ignored, and every other path is inserted.
pub open spec fn insertion_outcome(path: Seq<char>, exists: bool, ignored: Set<InputFileType>)
    -> Result<(), ErrorView> {
    if !exists {
        Err(ErrorView::Io(IoErrorKind::NotFound, "File does not exist"@))
    } else if !kind_of_path(path).is_recognised() {
        Err(ErrorView::UnsupportedFileType)
    } else if ignored.contains(kind_of_path(path)) {
        Err(ErrorView::IgnoredByUser)
    } else {
        Ok(())
    }
}

/// The set after the attempt to insert a path: with the path's identity added
/// when the attempt succeeds, unchanged when it fails.
pub open spec fn set_after_insertion(
    before: Set<Identity>,
    path: Seq<char>,
    exists: bool,
    ignored: Set<InputFileType>,
) -> Set<Identity> {
    if insertion_outcome(path, exists, ignored) is Ok {
        before.insert((path, kind_of_path(path)))
    } else {
        before
    }
}

/// Inserting the same path a second time changes nothing: the set, and with it
/// the count, stays as it was after the first insertion.
pub proof fn lemma_insertion_is_idempotent(
    before: Set<Identity>,
    path: Seq<char>,
    exists: bool,
    ignored: Set<InputFileType>,
)
    requires
        before.finite(),
    ensures
        set_after_insertion(set_after_insertion(before, path, exists, ignored), path, exists, ignored)
            == set_after_insertion(before, path, exists, ignored),
        set_after_insertion(
            set_after_insertion(before, path, exists, ignored),
            path,
            exists,
            ignored,
        ).len() == set_after_insertion(before, path, exists, ignored).len(),
        before.len() <= set_after_insertion(before, path, exists, ignored).len() <= before.len()
            + 1,
        before.contains((path, kind_of_path(path))) ==> set_after_insertion(
            before,
            path,
            exists,
            ignored,
        ) == before,
{
}

/// A file that exists, of a recognised kind that the user has switched off, is
/// rejected as ignored by the user, not as unsupported, and leaves the set as it
/// was. A file of no recognised kind is rejected as unsupported whether or not
/// that kind is among the ignored ones.
pub proof fn lemma_ignored_kind_is_rejected_as_ignored(
    before: Set<Identity>,
    path: Seq<char>,
    ignored: Set<InputFileType>,
)
    requires
        ignored.contains(kind_of_path(path)),
    ensures
        kind_of_path(path).is_recognised() ==> insertion_outcome(path, true, ignored) == Err::<
            (),
            ErrorView,
        >(ErrorView::IgnoredByUser),
        !kind_of_path(path).is_recognised() ==> insertion_outcome(path, true, ignored) == Err::<
            (),
            ErrorView,
        >(ErrorView::UnsupportedFileType),
        set_after_insertion(before, path, true, ignored) == before,
{
}

/// How many of the identities in a sequence are of the given kind.
pub open spec fn count_of_kind(ids: Seq<Identity>, kind: InputFileType) -> nat
    decreases ids.len(),
{
    if ids.len() == 0 {
        0
    } else {
        count_of_kind(ids.drop_last(), kind) + if ids.last().1 == kind {
            1nat
        } else {
            0nat
        }
    }
}

/// In a sequence without repetition, the identities of one kind are as many as
/// the members of that kind in the sequence's set.
pub proof fn lemma_count_of_kind_is_filter_len(ids: Seq<Identity>, kind: InputFileType)
    requires
        ids.no_duplicates(),
    ensures
        ids.to_set().filter(|id: Identity| id.1 == kind).finite(),
        count_of_kind(ids, kind) == ids.to_set().filter(|id: Identity| id.1 == kind).len(),
    decreases ids.len(),
{
    let pred = |id: Identity| id.1 == kind;
    if ids.len() == 0 {
        assert(ids.to_set().filter(pred) =~= Set::<Identity>::empty());
    } else {
        let front = ids.drop_last();
        let last = ids.last();
        lemma_count_of_kind_is_filter_len(front, kind);
        assert(ids =~= front.push(last));
        front.lemma_push_to_set_commute(last);
        if last.1 == kind {
            assert(ids.to_set().filter(pred) =~= front.to_set().filter(pred).insert(last));
        } else {
            assert(ids.to_set().filter(pred) =~= front.to_set().filter(pred));
        }
    }
}

/// The input files that wait to be processed: a set of identifiers, each of a
/// recognised kind, none held twice.
#[derive(Debug)]
pub struct FilesPendingProc {
    files: Vec<BomFileIdentifier>,
}

impl View for FilesPendingProc {
    type V = Set<Identity>;

    closed spec fn view(&self) -> Set<Identity> {
        identities(self.files@).to_set()
    }
}

impl FilesPendingProc {
    #[verifier::type_invariant]
    spec fn well_formed(&self) -> bool {
        &&& identities(self.files@).no_duplicates()
        &&& forall|i: int|
            0 <= i < self.files@.len() ==> (#[trigger] self.files@[i])@.1.is_recognised()
    }

    /// An empty set.
    #[inline]
    pub fn new() -> (pending: Self)
        ensures
            pending@ == Set::<Identity>::empty(),
            pending@.finite(),
    {
        Self { files: Vec::new() }
    }

    /// An empty set with room for `size` files.
    #[inline]
    pub fn with_capacity(size: usize) -> (pending: Self)
        ensures
            pending@ == Set::<Identity>::empty(),
            pending@.finite(),
    {
        Self { files: Vec::with_capacity(size) }
    }

    /// The files held, each once, in no order that callers may rely on.
    #[inline]
    pub fn get_files_ref(&self) -> (files: &Vec<BomFileIdentifier>)
        ensures
            identities(files@).to_set() == self@,
            identities(files@).no_duplicates(),
            files@.len() == self@.len(),
            forall|i: int| 0 <= i < files@.len() ==> (#[trigger] files@[i])@.1.is_recognised(),
            self@.finite(),
    {
        proof {
            use_type_invariant(self);
            identities(self.files@).unique_seq_to_set();
            seq_to_set_is_finite(identities(self.files@));
        }
        &self.files
    }

    /// Whether `kind` is among `ignored`.
    fn is_ignored(kind: InputFileType, ignored: &Vec<InputFileType>) -> (found: bool)
        ensures
            found == ignored@.to_set().contains(kind),
    {
        let mut i: usize = 0;
        while i < ignored.len()
            invariant
                i <= ignored.len(),
                forall|j: int| 0 <= j < i ==> ignored@[j] != kind,
            decreases ignored.len() - i,
        {
            if ignored[i] == kind {
                return true;
            }
            i += 1;
        }
        false
    }

    /// Adds an identifier of a recognised kind unless it is held already.
    fn insert(&mut self, id: BomFileIdentifier)
        requires
            id@.1.is_recognised(),
        ensures
            final(self)@ == old(self)@.insert(id@),
            old(self)@.finite(),
    {
        proof {
            use_type_invariant(&*self);
            seq_to_set_is_finite(identities(self.files@));
        }
        let ghost before = identities(self.files@);
        let mut i: usize = 0;
        while i < self.files.len()
            invariant
                i <= self.files.len(),
                identities(self.files@) == before,
                forall|j: int| 0 <= j < i ==> before[j] != id@,
            decreases self.files.len() - i,
        {
            if self.files[i] == id {
                assert(before[i as int] == id@);
                return ;
            }
            i += 1;
        }
        let mut files: Vec<BomFileIdentifier> = Vec::new();
        std::mem::swap(&mut self.files, &mut files);
        files.push(id);
        proof {
            assert(identities(files@) =~= before.push(id@));
            before.lemma_push_to_set_commute(id@);
        }
        std::mem::swap(&mut self.files, &mut files);
    }

    /// Decides the insertion of a path that is known to exist or not, without
    /// an ignore list. See [`Self::add_sup_file_ignore_probed`].
    pub fn add_supported_file_probed(&mut self, path: &str, exists: bool) -> (res: Result<
        (),
        Vex2PdfError,
    >)
        ensures
            unit_result_view(res) == insertion_outcome(path@, exists, Set::empty()),
            final(self)@ == set_after_insertion(old(self)@, path@, exists, Set::empty()),
            old(self)@.finite() && final(self)@.finite(),
    {
        let ignored: Vec<InputFileType> = Vec::new();
        self.add_sup_file_ignore_probed(path, exists, &ignored)
    }

    /// Decides the insertion of a path that is known to exist or not: the path is
    /// inserted when it exists, is of a recognised kind and that kind is not among
    /// `ignored_types`; else the set stays as it is and the error says which of
    /// the three failed first. Inserting what is held already succeeds and changes
    /// nothing.
    pub fn add_sup_file_ignore_probed(
        &mut self,
        path: &str,
        exists: bool,
        ignored_types: &Vec<InputFileType>,
    ) -> (res: Result<(), Vex2PdfError>)
        ensures
            unit_result_view(res) == insertion_outcome(path@, exists, ignored_types@.to_set()),
            final(self)@ == set_after_insertion(
                old(self)@,
                path@,
                exists,
                ignored_types@.to_set(),
            ),
            old(self)@.finite() && final(self)@.finite(),
    {
        proof {
            use_type_invariant(&*self);
            seq_to_set_is_finite(identities(self.files@));
        }
        let file_ident = match BomFileIdentifier::build_with_probe(path, exists) {
            Ok(id) => id,
            Err(e) => {
                return Err(e);
            },
        };
        if file_ident.is_supported_type() {
            if Self::is_ignored(*file_ident.get_type(), ignored_types) {
                Err(Vex2PdfError::IgnoredByUser)
            } else {
                self.insert(file_ident);
                Ok(())
            }
        } else {
            Err(Vex2PdfError::UnsupportedFileType)
        }
    }

    /// Inserts a path if it exists on the filesystem and is of a recognised kind.
    /// The filesystem decides whether the path exists; whatever it answers, the
    /// result and the set are those of [`Self::add_supported_file_probed`] for
    /// that answer.
    pub fn add_supported_file(&mut self, path: &str) -> (res: Result<(), Vex2PdfError>)
        ensures
            exists|found: bool|
                {
                    &&& unit_result_view(res) == insertion_outcome(path@, found, Set::empty())
                    &&& final(self)@ == #[trigger] set_after_insertion(
                        old(self)@,
                        path@,
                        found,
                        Set::empty(),
                    )
                },
            old(self)@.finite() && final(self)@.finite(),
    {
        let found = path_exists(path);
        self.add_supported_file_probed(path, found)
    }

    /// Inserts a path if it exists on the filesystem, is of a recognised kind and
    /// that kind is not among `ignored_types`. The filesystem decides whether the
    /// path exists; whatever it answers, the result and the set are those of
    /// [`Self::add_sup_file_ignore_probed`] for that answer.
    pub fn add_sup_file_ignore(&mut self, path: &str, ignored_types: &Vec<InputFileType>) -> (res:
        Result<(), Vex2PdfError>)
        ensures
            exists|found: bool|
                {
                    &&& unit_result_view(res) == insertion_outcome(
                        path@,
                        found,
                        ignored_types@.to_set(),
                    )
                    &&& final(self)@ == #[trigger] set_after_insertion(
                        old(self)@,
                        path@,
                        found,
                        ignored_types@.to_set(),
                    )
                },
            old(self)@.finite() && final(self)@.finite(),
    {
        let found = path_exists(path);
        self.add_sup_file_ignore_probed(path, found, ignored_types)
    }

    /// How many of the files held are of the given kind.
    pub fn get_file_count_by_type(&self, file_type: InputFileType) -> (count: usize)
        ensures
            count == self@.filter(|id: Identity| id.1 == file_type).len(),
    {
        proof {
            use_type_invariant(self);
        }
        let ghost ids = identities(self.files@);
        let mut count: usize = 0;
        let mut i: usize = 0;
        while i < self.files.len()
            invariant
                i <= self.files.len(),
                ids == identities(self.files@),
                count == count_of_kind(ids.take(i as int), file_type),
                count <= i,
            decreases self.files.len() - i,
        {
            proof {
                assert(ids.take(i + 1).drop_last() =~= ids.take(i as int));
            }
            if *self.files[i].get_type() == file_type {
                count += 1;
            }
            i += 1;
        }
        proof {
            assert(ids.take(i as int) =~= ids);
            lemma_count_of_kind_is_filter_len(ids, file_type);
        }
        count
    }

    /// How many files are held.
    pub fn get_file_count(&self) -> (count: usize)
        ensures
            count == self@.len(),
            self@.finite(),
    {
        proof {
            use_type_invariant(self);
            identities(self.files@).unique_seq_to_set();
            seq_to_set_is_finite(identities(self.files@));
        }
        self.files.len()
    }

    /// Hands the files out, each exactly once, in no order that callers may rely
    /// on.
    pub fn into_files(self) -> (files: Vec<BomFileIdentifier>)
        ensures
            identities(files@).to_set() == self@,
            identities(files@).no_duplicates(),
            files@.len() == self@.len(),
            forall|i: int| 0 <= i < files@.len() ==> (#[trigger] files@[i])@.1.is_recognised(),
    {
        proof {
            use_type_invariant(&self);
            identities(self.files@).unique_seq_to_set();
        }
        self.files
    }
}

impl Default for FilesPendingProc {
    /// An empty set.
    fn default() -> (pending: Self)
        ensures
            pending@ == Set::<Identity>::empty(),
            pending@.finite(),
    {
        Self::new()
    }
}

impl IntoIterator for FilesPendingProc {
    type Item = BomFileIdentifier;

    type IntoIter = std::vec::IntoIter<BomFileIdentifier>;

    /// Consumes the set and yields each file exactly once, in no order that
    /// callers may rely on.
    fn into_iter(self) -> (iter: std::vec::IntoIter<BomFileIdentifier>)
        ensures
            identities(IteratorSpec::remaining(&iter)).to_set() == self@,
            identities(IteratorSpec::remaining(&iter)).no_duplicates(),
            IteratorSpec::remaining(&iter).len() == self@.len(),
    {
        self.into_files().into_iter()
    }
}

} // verus!
