//! The errors of the pipeline and their messages.
use vstd::prelude::*;

verus! {

/// What went wrong in an operation on the filesystem.
#[derive(Clone, Copy, Debug, PartialEq, Eq, Structural, Hash)]
pub enum IoErrorKind {
    /// The path names nothing.
    NotFound,
    /// The path may not be read or written.
    PermissionDenied,
    /// The path is of the wrong sort, such as a file where a directory is due.
    InvalidInput,
    /// Any other failure.
    Other,
}

/// A failed operation on the filesystem, with the message that describes it.
#[derive(Debug)]
pub struct IoError {
    pub kind: IoErrorKind,
    pub message: String,
}

/// Every error that the pipeline reports.
#[derive(Debug)]
pub enum Vex2PdfError {
    /// An operation on the filesystem failed.
    Io(IoError),
    /// The output directory names something that is no directory.
    InvalidOutputDir(String),
    /// The input path has no file name to derive the report's name from.
    InvalidFileStem(String),
    /// The document could not be parsed.
    Parse(String),
    /// The file is of no recognised kind.
    UnsupportedFileType,
    /// The file is of a kind that the user has switched off.
    IgnoredByUser,
    /// A job could not be handed to the worker pool.
    ConcurrencyError(String),
}

/// The mathematical value of a [`Vex2PdfError`].
pub enum ErrorView {
    Io(IoErrorKind, Seq<char>),
    InvalidOutputDir(Seq<char>),
    InvalidFileStem(Seq<char>),
    Parse(Seq<char>),
    UnsupportedFileType,
    IgnoredByUser,
    ConcurrencyError(Seq<char>),
}

impl ErrorView {
    /// The one-line message shown to the user.
    pub open spec fn message(self) -> Seq<char> {
        match self {
            ErrorView::Io(_, text) => text,
            ErrorView::InvalidOutputDir(path) => "`"@ + path + "` should be a directory but isn't"@,
            ErrorView::InvalidFileStem(path) => "failed to extract filename stem from `"@ + path
                + "`"@,
            ErrorView::Parse(text) => text,
            ErrorView::UnsupportedFileType => "Unsupported file type for parsing"@,
            ErrorView::IgnoredByUser => "file ignored explicitly by user"@,
            ErrorView::ConcurrencyError(text) => "Concurrency error : "@ + text,
        }
    }

    /// Whether the error only says that the user switched the file's kind off,
    /// which is worth a note, not a warning.
    pub open spec fn is_informational(self) -> bool {
        self is IgnoredByUser
    }
}

impl View for IoError {
    type V = (IoErrorKind, Seq<char>);

    open spec fn view(&self) -> (IoErrorKind, Seq<char>) {
        (self.kind, self.message@)
    }
}

impl View for Vex2PdfError {
    type V = ErrorView;

    open spec fn view(&self) -> ErrorView {
        match self {
            Vex2PdfError::Io(e) => ErrorView::Io(e.kind, e.message@),
            Vex2PdfError::InvalidOutputDir(path) => ErrorView::InvalidOutputDir(path@),
            Vex2PdfError::InvalidFileStem(path) => ErrorView::InvalidFileStem(path@),
            Vex2PdfError::Parse(text) => ErrorView::Parse(text@),
            Vex2PdfError::UnsupportedFileType => ErrorView::UnsupportedFileType,
            Vex2PdfError::IgnoredByUser => ErrorView::IgnoredByUser,
            Vex2PdfError::ConcurrencyError(text) => ErrorView::ConcurrencyError(text@),
        }
    }
}

impl IoError {
    /// An error of the given kind with the given message.
    pub fn new(kind: IoErrorKind, message: &str) -> (e: IoError)
        ensures
            e@ == (kind, message@),
    {
        IoError { kind, message: String::from_str(message) }
    }

    /// The error for a path that names nothing.
    pub fn not_found() -> (e: IoError)
        ensures
            e@ == (IoErrorKind::NotFound, "File does not exist"@),
    {
        IoError::new(IoErrorKind::NotFound, "File does not exist")
    }
}

impl Vex2PdfError {
    /// The one-line message shown to the user.
    pub fn to_string(&self) -> (text: String)
        ensures
            text@ == self@.message(),
    {
        match self {
            Vex2PdfError::Io(e) => e.message.clone(),
            Vex2PdfError::InvalidOutputDir(path) => {
                let mut text = String::from_str("`");
                text.append(path.as_str());
                text.append("` should be a directory but isn't");
                text
            },
            Vex2PdfError::InvalidFileStem(path) => {
                let mut text = String::from_str("failed to extract filename stem from `");
                text.append(path.as_str());
                text.append("`");
                text
            },
            Vex2PdfError::Parse(message) => message.clone(),
            Vex2PdfError::UnsupportedFileType => String::from_str(
                "Unsupported file type for parsing",
            ),
            Vex2PdfError::IgnoredByUser => String::from_str("file ignored explicitly by user"),
            Vex2PdfError::ConcurrencyError(detail) => {
                let mut text = String::from_str("Concurrency error : ");
                text.append(detail.as_str());
                text
            },
        }
    }

    /// Whether the error only says that the user switched the file's kind off.
    pub fn is_informational(&self) -> (b: bool)
        ensures
            b == self@.is_informational(),
    {
        match self {
            Vex2PdfError::IgnoredByUser => true,
            _ => false,
        }
    }

    /// The error for a job that the worker pool did not take, with the reason
    /// that the pool gave.
    pub fn from_send_failure(reason: &str) -> (e: Vex2PdfError)
        ensures
            e@ == ErrorView::ConcurrencyError(
                "Attempted to send where there are no more receivers. "@ + reason@,
            ),
    {
        let mut text = String::from_str("Attempted to send where there are no more receivers. ");
        text.append(reason);
        Vex2PdfError::ConcurrencyError(text)
    }
}

impl From<IoError> for Vex2PdfError {
    fn from(value: IoError) -> (e: Vex2PdfError) {
        Vex2PdfError::Io(value)
    }
}

impl vstd::std_specs::convert::FromSpecImpl<IoError> for Vex2PdfError {
    open spec fn obeys_from_spec() -> bool {
        true
    }

    open spec fn from_spec(value: IoError) -> Vex2PdfError {
        Vex2PdfError::Io(value)
    }
}

} // verus!
