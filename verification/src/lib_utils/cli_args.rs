//! The command line's arguments as plain values, and the checks on them. Each
//! argument is optional; what is not given falls back to the environment and
//! then to a default.
use crate::lib_utils::errors::{IoError, IoErrorKind};
use crate::lib_utils::paths::{joined_path, path_is_dir, path_join};
use vstd::prelude::*;

verus! {

/// The arguments of the command line.
#[derive(Debug)]
pub struct CliArgs {
    /// The file to convert, or the directory whose files are converted.
    pub input: Option<String>,
    /// Whether a report without vulnerabilities says so.
    pub show_novulns_msg: Option<bool>,
    /// The heading on the first page of the report.
    pub report_title: Option<String>,
    /// The title in the PDF's metadata.
    pub meta_name: Option<String>,
    /// Whether the report lists the components only.
    pub pure_bom_novulns: Option<bool>,
    /// Whether the report lists the components after the vulnerabilities.
    pub show_components: Option<bool>,
    /// The directory that the reports are written to.
    pub output_dir: Option<String>,
    /// How many jobs run side by side.
    pub max_jobs: Option<u8>,
}

/// What is left to do to validate the arguments.
#[derive(Debug)]
pub enum ValidationStep {
    /// Nothing: the validation has ended with this result.
    Done(Result<(), IoError>),
    /// Create this file and remove it again, to see that the output directory
    /// can be written to, and report both outcomes to
    /// [`CliArgs::validate_written`].
    TryWriting(String),
}

/// The mathematical value of a [`ValidationStep`].
pub enum ValidationStepView {
    Done(Result<(), (IoErrorKind, Seq<char>)>),
    TryWriting(Seq<char>),
}

impl View for ValidationStep {
    type V = ValidationStepView;

    open spec fn view(&self) -> ValidationStepView {
        match self {
            ValidationStep::Done(Ok(_)) => ValidationStepView::Done(Ok(())),
            ValidationStep::Done(Err(e)) => ValidationStepView::Done(Err(e@)),
            ValidationStep::TryWriting(path) => ValidationStepView::TryWriting(path@),
        }
    }
}

/// The name of the file that is written to test the output directory.
pub open spec fn permission_test_file() -> Seq<char> {
    "vex2pdf_perm_test_file"@
}

/// The first step of the validation, given whether the output directory names
/// a directory: without an output directory there is nothing to check; an
/// output directory that is none is refused; else the directory is to be
/// written to.
pub open spec fn first_validation_step(output_dir: Option<Seq<char>>, is_dir: bool)
    -> ValidationStepView {
    match output_dir {
        None => ValidationStepView::Done(Ok(())),
        Some(dir) => if !is_dir {
            ValidationStepView::Done(
                Err((IoErrorKind::InvalidInput, "Expected a directory got "@ + dir)),
            )
        } else {
            ValidationStepView::TryWriting(joined_path(dir, permission_test_file()))
        },
    }
}

/// The end of the validation, given whether the test file could be created and
/// whether it could be removed again.
pub open spec fn written_outcome(created: bool, removed: bool) -> Result<
    (),
    (IoErrorKind, Seq<char>),
> {
    if !created {
        Err(
            (
                IoErrorKind::PermissionDenied,
                "Could not create a test file. possible permissions issue"@,
            ),
        )
    } else if !removed {
        Err((IoErrorKind::PermissionDenied, "unable to delete permissions test file"@))
    } else {
        Ok(())
    }
}

/// The texts of an optional `String`.
pub open spec fn opt_text(s: Option<String>) -> Option<Seq<char>> {
    match s {
        Some(text) => Some(text@),
        None => None,
    }
}

impl CliArgs {
    /// The first step of the validation, given whether the output directory
    /// names a directory. `is_dir` is not read without an output directory.
    pub fn validate_probed(&self, is_dir: bool) -> (step: ValidationStep)
        ensures
            step@ == first_validation_step(opt_text(self.output_dir), is_dir),
    {
        match &self.output_dir {
            None => ValidationStep::Done(Ok(())),
            Some(path) => {
                if !is_dir {
                    let message = String::from_str("Expected a directory got ").concat(
                        path.as_str(),
                    );
                    ValidationStep::Done(
                        Err(IoError { kind: IoErrorKind::InvalidInput, message }),
                    )
                } else {
                    ValidationStep::TryWriting(path_join(path.as_str(), "vex2pdf_perm_test_file"))
                }
            },
        }
    }

    /// The first step of the validation. The filesystem decides whether the
    /// output directory names a directory; whatever it answers, the step is that
    /// of [`CliArgs::validate_probed`] for that answer.
    pub fn validate(&self) -> (step: ValidationStep)
        ensures
            self.output_dir is None ==> step@ == ValidationStepView::Done(Ok(())),
            exists|is_dir: bool|
                step@ == #[trigger] first_validation_step(opt_text(self.output_dir), is_dir),
    {
        let is_dir = match &self.output_dir {
            Some(path) => path_is_dir(path.as_str()),
            None => false,
        };
        self.validate_probed(is_dir)
    }

    /// The end of the validation, given whether the test file could be created
    /// and whether it could be removed again. `removed` is not read where the
    /// file was not created.
    pub fn validate_written(created: bool, removed: bool) -> (res: Result<(), IoError>)
        ensures
            match res {
                Ok(_) => written_outcome(created, removed) == Ok::<(), (IoErrorKind, Seq<char>)>(
                    (),
                ),
                Err(e) => written_outcome(created, removed) == Err::<(), (IoErrorKind, Seq<char>)>(
                    e@,
                ),
            },
    {
        if !created {
            Err(
                IoError::new(
                    IoErrorKind::PermissionDenied,
                    "Could not create a test file. possible permissions issue",
                ),
            )
        } else if !removed {
            Err(
                IoError::new(
                    IoErrorKind::PermissionDenied,
                    "unable to delete permissions test file",
                ),
            )
        } else {
            Ok(())
        }
    }
}

} // verus!
