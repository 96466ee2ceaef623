//! The environment variables that the program reads, and how their values are
//! understood. Reading the environment is left to the caller, who passes the
//! value of a variable, or `None` where it is not set.
use crate::lib_utils::text::{eq_ignore_ascii_case, str_eq_ignore_ascii_case};
use vstd::prelude::*;

verus! {

/// The environment variables that the program reads.
#[derive(Clone, Copy, Debug, PartialEq, Eq, Structural)]
pub enum EnvVarNames {
    /// The user's home directory.
    Home,
    /// Whether a report without vulnerabilities says so. On unless set to off.
    NoVulnsMsg,
    /// Whether JSON files are processed.
    ProcessJson,
    /// Whether XML files are processed.
    ProcessXml,
    /// Whether the licences are shown.
    ShowOssLicenses,
    /// Whether the version is shown at startup.
    VersionInfo,
    /// The heading on the first page of the report.
    ReportTitle,
    /// The title in the PDF's metadata.
    PdfName,
    /// Whether the report lists the components only.
    PureBomNoVulns,
    /// Whether the report lists the components after the vulnerabilities.
    ShowComponentList,
    /// The file or directory to convert.
    WorkingPath,
    /// The directory that the reports are written to.
    OutputDir,
    /// How many jobs run side by side.
    MaxJobs,
}

/// Whether a value switches a setting on: every value does, but for `false`,
/// `off`, `no` and `0` in any ASCII case.
pub open spec fn value_is_on(value: Seq<char>) -> bool {
    !(eq_ignore_ascii_case(value, "false"@) || eq_ignore_ascii_case(value, "off"@)
        || eq_ignore_ascii_case(value, "no"@) || eq_ignore_ascii_case(value, "0"@))
}

/// The lines that tell the operator which titles are in use, for the values of
/// the two variables that override them.
pub open spec fn report_titles_info(report_title: Option<Seq<char>>, pdf_name: Option<Seq<char>>)
    -> Seq<Seq<char>> {
    seq![""@] + (match report_title {
        Some(title) => seq!["Overriding report title to "@ + title],
        None => seq![
            "Using default report title"@,
            "to override this set the "@ + EnvVarNames::ReportTitle.name()
                + " environment variable to the desired title"@,
        ],
    }) + seq![""@] + (match pdf_name {
        Some(title) => seq!["Overriding pdf metadata title to "@ + title],
        None => seq![
            "Using default pdf metadata title"@,
            "to override this set the "@ + EnvVarNames::PdfName.name()
                + " environment variable to the desired title"@,
        ],
    }) + seq![""@]
}

impl EnvVarNames {
    /// The variable's name in the environment.
    pub open spec fn name(self) -> Seq<char> {
        match self {
            EnvVarNames::Home => "HOME"@,
            EnvVarNames::NoVulnsMsg => "VEX2PDF_NOVULNS_MSG"@,
            EnvVarNames::ProcessJson => "VEX2PDF_JSON"@,
            EnvVarNames::ProcessXml => "VEX2PDF_XML"@,
            EnvVarNames::ShowOssLicenses => "VEX2PDF_SHOW_OSS_LICENSES"@,
            EnvVarNames::VersionInfo => "VEX2PDF_VERSION_INFO"@,
            EnvVarNames::ReportTitle => "VEX2PDF_REPORT_TITLE"@,
            EnvVarNames::PdfName => "VEX2PDF_PDF_META_NAME"@,
            EnvVarNames::PureBomNoVulns => "VEX2PDF_PURE_BOM_NOVULNS"@,
            EnvVarNames::ShowComponentList => "VEX2PDF_SHOW_COMPONENTS"@,
            EnvVarNames::OutputDir => "VEX2PDF_OUTPUT_DIR"@,
            EnvVarNames::WorkingPath => "VEX2PDF_WORKING_PATH"@,
            EnvVarNames::MaxJobs => "VEX2PDF_MAX_JOBS"@,
        }
    }

    /// The variable's name in the environment.
    pub fn as_str(&self) -> (name: &'static str)
        ensures
            name@ == self.name(),
    {
        match self {
            EnvVarNames::Home => "HOME",
            EnvVarNames::NoVulnsMsg => "VEX2PDF_NOVULNS_MSG",
            EnvVarNames::ProcessJson => "VEX2PDF_JSON",
            EnvVarNames::ProcessXml => "VEX2PDF_XML",
            EnvVarNames::ShowOssLicenses => "VEX2PDF_SHOW_OSS_LICENSES",
            EnvVarNames::VersionInfo => "VEX2PDF_VERSION_INFO",
            EnvVarNames::ReportTitle => "VEX2PDF_REPORT_TITLE",
            EnvVarNames::PdfName => "VEX2PDF_PDF_META_NAME",
            EnvVarNames::PureBomNoVulns => "VEX2PDF_PURE_BOM_NOVULNS",
            EnvVarNames::ShowComponentList => "VEX2PDF_SHOW_COMPONENTS",
            EnvVarNames::OutputDir => "VEX2PDF_OUTPUT_DIR",
            EnvVarNames::WorkingPath => "VEX2PDF_WORKING_PATH",
            EnvVarNames::MaxJobs => "VEX2PDF_MAX_JOBS",
        }
    }

    /// Whether the variable switches its setting on, where the setting is on by
    /// default: an unset variable counts as on.
    pub fn is_on_or_unset(&self, value: Option<&str>) -> (on: bool)
        ensures
            on == match value {
                Some(text) => value_is_on(text@),
                None => true,
            },
    {
        match value {
            Some(text) => self.is_value_on(text),
            None => true,
        }
    }

    /// Whether the variable switches its setting on, where the setting is off by
    /// default: an unset variable counts as off.
    pub fn is_on(&self, value: Option<&str>) -> (on: bool)
        ensures
            on == match value {
                Some(text) => value_is_on(text@),
                None => false,
            },
    {
        match value {
            Some(text) => self.is_value_on(text),
            None => false,
        }
    }

    /// The lines that tell the operator which titles are in use, given the values
    /// of the variables for the report title and for the PDF's name.
    pub fn print_report_titles_info(report_title: Option<&str>, pdf_name: Option<&str>) -> (lines:
        Vec<String>)
        ensures
            lines@.map_values(|line: String| line@) == report_titles_info(
                match report_title {
                    Some(title) => Some(title@),
                    None => None,
                },
                match pdf_name {
                    Some(title) => Some(title@),
                    None => None,
                },
            ),
    {
        let mut lines: Vec<String> = Vec::new();
        lines.push(String::from_str(""));
        match report_title {
            Some(title) => {
                lines.push(String::from_str("Overriding report title to ").concat(title));
            },
            None => {
                lines.push(String::from_str("Using default report title"));
                lines.push(
                    String::from_str("to override this set the ").concat(
                        EnvVarNames::ReportTitle.as_str(),
                    ).concat(" environment variable to the desired title"),
                );
            },
        }
        lines.push(String::from_str(""));
        match pdf_name {
            Some(title) => {
                lines.push(String::from_str("Overriding pdf metadata title to ").concat(title));
            },
            None => {
                lines.push(String::from_str("Using default pdf metadata title"));
                lines.push(
                    String::from_str("to override this set the ").concat(
                        EnvVarNames::PdfName.as_str(),
                    ).concat(" environment variable to the desired title"),
                );
            },
        }
        lines.push(String::from_str(""));
        lines
    }

    /// Whether a value switches a setting on.
    pub fn is_value_on(&self, value: &str) -> (on: bool)
        ensures
            on == value_is_on(value@),
    {
        !(str_eq_ignore_ascii_case(value, "false") || str_eq_ignore_ascii_case(value, "off")
            || str_eq_ignore_ascii_case(value, "no") || str_eq_ignore_ascii_case(value, "0"))
    }
}

} // verus!
