//! The identity of one discovered input file: its path and its kind.
use crate::files_proc::model::input_file_type::InputFileType;
use crate::lib_utils::errors::{ErrorView, IoError, IoErrorKind, Vex2PdfError};
use crate::lib_utils::paths::{extension_of, path_exists, path_extension};
use vstd::prelude::*;

verus! {

/// The kind that a path's extension gives it.
pub open spec fn kind_of_path(path: Seq<char>) -> InputFileType {
    InputFileType::of_extension(extension_of(path))
}

/// A path together with the kind derived from its extension. Two identifiers are
/// the same when both parts are.
#[derive(Debug, Hash)]
pub struct BomFileIdentifier {
    path: String,
    kind: InputFileType,
}

impl View for BomFileIdentifier {
    type V = (Seq<char>, InputFileType);

    closed spec fn view(&self) -> (Seq<char>, InputFileType) {
        (self.path@, self.kind)
    }
}

impl BomFileIdentifier {
    /// Builds the identifier of a path that is known to exist or not: the
    /// identifier when it exists, and the not-found error when it does not.
    pub fn build_with_probe(path: &str, exists: bool) -> (res: Result<Self, Vex2PdfError>)
        ensures
            exists ==> (res matches Ok(id) && id@ == (path@, kind_of_path(path@))),
            !exists ==> (res matches Err(e) && e@ == ErrorView::Io(
                IoErrorKind::NotFound,
                "File does not exist"@,
            )),
    {
        if !exists {
            return Err(Vex2PdfError::Io(IoError::not_found()));
        }
        Ok(Self::mock_new(path))
    }

    /// Builds the identifier of a path after asking the filesystem whether the
    /// path exists. A directory, or a file of no recognised kind, gets an
    /// identifier of kind `UNSUPPORTED`; a path that names nothing is an error.
    pub fn build(path: &str) -> (res: Result<Self, Vex2PdfError>)
        ensures
            match res {
                Ok(id) => id@ == (path@, kind_of_path(path@)),
                Err(e) => e@ == ErrorView::Io(IoErrorKind::NotFound, "File does not exist"@),
            },
    {
        let exists = path_exists(path);
        Self::build_with_probe(path, exists)
    }

    /// Builds the identifier of a path without asking whether it exists.
    pub fn mock_new(path: &str) -> (id: Self)
        ensures
            id@ == (path@, kind_of_path(path@)),
    {
        let kind = match path_extension(path) {
            Some(ext) => InputFileType::with_extension(Some(ext.as_str())),
            None => InputFileType::with_extension(None),
        };
        BomFileIdentifier { path: String::from_str(path), kind }
    }

    /// The path.
    #[inline]
    pub fn get_path(&self) -> (path: &String)
        ensures
            path@ == self@.0,
    {
        &self.path
    }

    /// The kind.
    #[inline]
    pub fn get_type(&self) -> (kind: &InputFileType)
        ensures
            *kind == self@.1,
    {
        &self.kind
    }

    /// Whether the kind is one of the recognised ones.
    #[inline]
    pub fn is_supported_type(&self) -> (b: bool)
        ensures
            b == self@.1.is_recognised(),
    {
        self.kind != InputFileType::UNSUPPORTED
    }
}

impl Clone for BomFileIdentifier {
    fn clone(&self) -> (copy: Self)
        ensures
            copy@ == self@,
    {
        BomFileIdentifier { path: self.path.clone(), kind: self.kind }
    }
}

impl PartialEq for BomFileIdentifier {
    fn eq(&self, other: &Self) -> (same: bool) {
        self.path == other.path && self.kind == other.kind
    }
}

impl Eq for BomFileIdentifier {

}

impl vstd::std_specs::cmp::PartialEqSpecImpl for BomFileIdentifier {
    open spec fn obeys_eq_spec() -> bool {
        true
    }

    open spec fn eq_spec(&self, other: &Self) -> bool {
        self@ == other@
    }
}

} // verus!
