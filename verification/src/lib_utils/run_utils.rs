//! Where a report is written, and what the program says of itself.
use crate::lib_utils::errors::{ErrorView, Vex2PdfError};
use crate::lib_utils::paths::{
    file_stem_of, joined_path, opt_string_view, path_file_stem, path_is_file, path_join,
    path_with_file_name, with_file_name_of,
};
use vstd::prelude::*;

verus! {

/// The mathematical value of a path or an error.
pub open spec fn path_result_view(res: Result<String, Vex2PdfError>) -> Result<
    Seq<char>,
    ErrorView,
> {
    match res {
        Ok(path) => Ok(path@),
        Err(e) => Err(e@),
    }
}

/// The name of the report for an input file's stem: the stem with `.pdf` behind.
pub open spec fn pdf_name(stem: Seq<char>) -> Seq<char> {
    stem + ".pdf"@
}

/// Where a report is placed, before the path is put together.
#[derive(Debug, PartialEq, Eq)]
pub enum ReportPlace {
    /// Beside the input file, under this name.
    BesideInput(String),
    /// In this directory, under this name.
    InDirectory(String, String),
}

/// The mathematical value of a [`ReportPlace`].
pub enum ReportPlaceView {
    BesideInput(Seq<char>),
    InDirectory(Seq<char>, Seq<char>),
}

impl View for ReportPlace {
    type V = ReportPlaceView;

    open spec fn view(&self) -> ReportPlaceView {
        match self {
            ReportPlace::BesideInput(name) => ReportPlaceView::BesideInput(name@),
            ReportPlace::InDirectory(dir, name) => ReportPlaceView::InDirectory(dir@, name@),
        }
    }
}

/// The mathematical value of a place or an error.
pub open spec fn place_result_view(res: Result<ReportPlace, Vex2PdfError>) -> Result<
    ReportPlaceView,
    ErrorView,
> {
    match res {
        Ok(place) => Ok(place@),
        Err(e) => Err(e@),
    }
}

/// Where the report of an input file is placed, given the stem of the input's
/// file name, if it has one. `dest` is the output directory, if one is set, with
/// the answer to whether it names a regular file.
///
/// An input path without a file stem is an error. With no output directory the
/// report stands beside the input, under the input's stem and `.pdf`. An output
/// directory that is a regular file is an error. Else the report stands in the
/// output directory, under the input's stem and `.pdf`.
pub open spec fn report_place(
    stem: Option<Seq<char>>,
    dest: Option<(Seq<char>, bool)>,
    file_path: Seq<char>,
) -> Result<ReportPlaceView, ErrorView> {
    match stem {
        None => Err(ErrorView::InvalidFileStem(file_path)),
        Some(stem) => match dest {
            None => Ok(ReportPlaceView::BesideInput(pdf_name(stem))),
            Some((dir, is_file)) => if is_file {
                Err(ErrorView::InvalidOutputDir(dir))
            } else {
                Ok(ReportPlaceView::InDirectory(dir, pdf_name(stem)))
            },
        },
    }
}

/// Where the report of an input file goes: the place that [`report_place`]
/// gives for the stem of the input's file name, as a path. `dest` is the output
/// directory, if one is set, with the answer to whether it names a regular file.
pub open spec fn output_pdf_path(dest: Option<(Seq<char>, bool)>, file_path: Seq<char>) -> Result<
    Seq<char>,
    ErrorView,
> {
    match report_place(file_stem_of(file_path), dest, file_path) {
        Ok(ReportPlaceView::BesideInput(name)) => Ok(with_file_name_of(file_path, name)),
        Ok(ReportPlaceView::InDirectory(dir, name)) => Ok(joined_path(dir, name)),
        Err(e) => Err(e),
    }
}

/// The output directory as [`output_pdf_path`] takes it.
pub open spec fn probed_dest(dest_dir: Option<&str>, dest_is_file: bool) -> Option<
    (Seq<char>, bool),
> {
    match dest_dir {
        Some(dir) => Some((dir@, dest_is_file)),
        None => None,
    }
}

/// The program's name, version and copyright notice.
pub fn get_version_info() -> (text: &'static str)
    ensures
        text@
            == "vex2pdf 0.9.2 - CycloneDX (VEX) to PDF Converter\nCopyright (c) 2025 Salem B. - MIT Or Apache 2.0 License"@,
{
    "vex2pdf 0.9.2 - CycloneDX (VEX) to PDF Converter\nCopyright (c) 2025 Salem B. - MIT Or Apache 2.0 License"
}

/// Decides where the report of an input file is placed, given the stem of the
/// input's file name, if it has one, and whether the output directory names a
/// regular file. `dest_is_file` is not read when there is no output directory.
pub fn place_report(
    stem: Option<String>,
    dest_dir: Option<&str>,
    dest_is_file: bool,
    file_path: &str,
) -> (res: Result<ReportPlace, Vex2PdfError>)
    ensures
        place_result_view(res) == report_place(
            opt_string_view(stem),
            probed_dest(dest_dir, dest_is_file),
            file_path@,
        ),
{
    let stem = match stem {
        Some(stem) => stem,
        None => {
            return Err(Vex2PdfError::InvalidFileStem(String::from_str(file_path)));
        },
    };
    let name = stem.concat(".pdf");
    match dest_dir {
        None => Ok(ReportPlace::BesideInput(name)),
        Some(out_dir) => if dest_is_file {
            Err(Vex2PdfError::InvalidOutputDir(String::from_str(out_dir)))
        } else {
            Ok(ReportPlace::InDirectory(String::from_str(out_dir), name))
        },
    }
}

/// Derives the report's path for an input file, given whether the output
/// directory names a regular file. `dest_is_file` is not read when there is no
/// output directory.
pub fn get_output_pdf_path_probed(dest_dir: Option<&str>, dest_is_file: bool, file_path: &str) -> (res:
    Result<String, Vex2PdfError>)
    ensures
        path_result_view(res) == output_pdf_path(probed_dest(dest_dir, dest_is_file), file_path@),
{
    match place_report(path_file_stem(file_path), dest_dir, dest_is_file, file_path) {
        Ok(ReportPlace::BesideInput(name)) => Ok(path_with_file_name(file_path, name.as_str())),
        Ok(ReportPlace::InDirectory(dir, name)) => Ok(path_join(dir.as_str(), name.as_str())),
        Err(e) => Err(e),
    }
}

/// Derives the report's path for an input file. The filesystem decides whether
/// the output directory names a regular file; whatever it answers, the result is
/// that of [`get_output_pdf_path_probed`] for that answer. With no output
/// directory the filesystem is not asked.
pub fn get_output_pdf_path(dest_dir: Option<&str>, file_path: &str) -> (res: Result<
    String,
    Vex2PdfError,
>)
    ensures
        dest_dir is None ==> path_result_view(res) == output_pdf_path(None, file_path@),
        exists|is_file: bool|
            path_result_view(res) == #[trigger] output_pdf_path(
                probed_dest(dest_dir, is_file),
                file_path@,
            ),
{
    let is_file = match dest_dir {
        Some(out_dir) => path_is_file(out_dir),
        None => false,
    };
    get_output_pdf_path_probed(dest_dir, is_file, file_path)
}

} // verus!
