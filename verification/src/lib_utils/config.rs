//! The settings of one run.
//!
//! A [`Config`] is built from [`Config::default`] with the builder methods, or
//! written out field by field.
use crate::files_proc::model::input_file_type::InputFileType;
use crate::lib_utils::cli_args::{opt_text, CliArgs};
use crate::lib_utils::env_vars::{value_is_on, EnvVarNames};
use vstd::prelude::*;

verus! {

/// What a list of switches says of a kind: the value of the last entry for that
/// kind, if there is one. A later entry for a kind replaces an earlier one.
pub open spec fn switch_of(switches: Seq<(InputFileType, bool)>, kind: InputFileType) -> Option<
    bool,
>
    decreases switches.len(),
{
    if switches.len() == 0 {
        None
    } else if switches.last().0 == kind {
        Some(switches.last().1)
    } else {
        switch_of(switches.drop_last(), kind)
    }
}

/// Whether the switches turn a kind off. Without switches nothing is off.
pub open spec fn is_switched_off(
    switches: Option<Seq<(InputFileType, bool)>>,
    kind: InputFileType,
) -> bool {
    match switches {
        Some(list) => switch_of(list, kind) == Some(false),
        None => false,
    }
}

/// The kinds that the switches turn off.
pub open spec fn switched_off_kinds(switches: Option<Seq<(InputFileType, bool)>>) -> Set<
    InputFileType,
> {
    Set::new(|kind: InputFileType| is_switched_off(switches, kind))
}

/// The texts of an optional list of switches.
pub open spec fn opt_switches_view(switches: Option<Vec<(InputFileType, bool)>>) -> Option<
    Seq<(InputFileType, bool)>,
> {
    match switches {
        Some(list) => Some(list@),
        None => None,
    }
}

/// The values of the environment variables that the settings fall back to, each
/// `None` where the variable is not set.
#[derive(Debug)]
pub struct EnvValues {
    pub no_vulns_msg: Option<String>,
    pub process_json: Option<String>,
    pub process_xml: Option<String>,
    pub pure_bom_novulns: Option<String>,
    pub show_components: Option<String>,
    pub report_title: Option<String>,
    pub pdf_name: Option<String>,
}

/// Whether a variable switches on a setting that is on by default.
pub open spec fn on_or_unset(value: Option<String>) -> bool {
    match value {
        Some(text) => value_is_on(text@),
        None => true,
    }
}

/// Whether a variable switches on a setting that is off by default.
pub open spec fn on_if_set(value: Option<String>) -> bool {
    match value {
        Some(text) => value_is_on(text@),
        None => false,
    }
}

/// An argument where it is given, else the fallback.
pub open spec fn flag_or(arg: Option<bool>, fallback: bool) -> bool {
    match arg {
        Some(flag) => flag,
        None => fallback,
    }
}

/// An argument where it is given, else the fallback.
pub open spec fn text_or(arg: Option<String>, fallback: Seq<char>) -> Seq<char> {
    match arg {
        Some(text) => text@,
        None => fallback,
    }
}

/// An argument where it is given, else the variable, else nothing.
pub open spec fn text_or_env(arg: Option<String>, env: Option<String>) -> Option<Seq<char>> {
    match arg {
        Some(text) => Some(text@),
        None => opt_text(env),
    }
}

/// The settings of one run.
#[derive(Debug)]
pub struct Config {
    /// The file to convert, or the directory whose files are converted.
    pub working_path: String,
    /// The directory that the reports are written to.
    pub output_dir: String,
    /// Whether a report without vulnerabilities says so.
    pub show_novulns_msg: bool,
    /// Which kinds of file are processed: a kind paired with `false` is skipped.
    /// A later entry for a kind replaces an earlier one.
    pub file_types_to_process: Option<Vec<(InputFileType, bool)>>,
    /// Whether the report lists the components only, without vulnerabilities.
    pub pure_bom_novulns: bool,
    /// Whether the report lists the components after the vulnerabilities.
    pub show_components: bool,
    /// The heading on the first page, if it is not the default one.
    pub report_title: Option<String>,
    /// The title in the PDF's metadata, if it is not the default one.
    pub pdf_meta_name: Option<String>,
    /// How many jobs run side by side: none or 0 for as many as the machine
    /// offers, 1 for one after the other on the calling thread.
    pub max_jobs: Option<u8>,
}

impl Config {
    /// The default title in the PDF's metadata.
    pub fn get_default_pdf_meta_name() -> (name: &'static str)
        ensures
            name@ == "VEX Vulnerability Report"@,
    {
        "VEX Vulnerability Report"
    }

    /// The default heading on the first page.
    pub fn get_default_report_title() -> (title: &'static str)
        ensures
            title@ == "Vulnerability Report Document"@,
    {
        "Vulnerability Report Document"
    }

    /// The settings for a run from the command line: an argument where it is
    /// given, else the environment variable, else the default. The working path
    /// and the output directory default to the current directory. Which kinds are
    /// processed comes from the environment alone; if it switches both off, JSON
    /// is processed all the same, and the second part of the result says so.
    pub fn build_with_env_cli(args: CliArgs, env: EnvValues, current_dir: &str) -> (built: (
        Self,
        bool,
    ))
        ensures
            built.0.working_path@ == text_or(args.input, current_dir@),
            built.0.output_dir@ == text_or(args.output_dir, current_dir@),
            built.0.show_novulns_msg == flag_or(
                args.show_novulns_msg,
                on_or_unset(env.no_vulns_msg),
            ),
            built.1 == (!on_or_unset(env.process_json) && !on_or_unset(env.process_xml)),
            opt_switches_view(built.0.file_types_to_process) == Some(
                seq![
                    (InputFileType::JSON, on_or_unset(env.process_json) || built.1),
                    (InputFileType::XML, on_or_unset(env.process_xml)),
                ],
            ),
            built.0.pure_bom_novulns == flag_or(
                args.pure_bom_novulns,
                on_if_set(env.pure_bom_novulns),
            ),
            built.0.show_components == flag_or(
                args.show_components,
                on_or_unset(env.show_components),
            ),
            opt_text(built.0.report_title) == text_or_env(args.report_title, env.report_title),
            opt_text(built.0.pdf_meta_name) == text_or_env(args.meta_name, env.pdf_name),
            built.0.max_jobs == args.max_jobs,
    {
        let working_path = match args.input {
            Some(path) => path,
            None => String::from_str(current_dir),
        };
        let output_dir = match args.output_dir {
            Some(path) => path,
            None => String::from_str(current_dir),
        };
        let show_novulns_msg = match args.show_novulns_msg {
            Some(show) => show,
            None => EnvVarNames::NoVulnsMsg.is_on_or_unset(opt_as_str(&env.no_vulns_msg)),
        };
        let mut process_json = EnvVarNames::ProcessJson.is_on_or_unset(
            opt_as_str(&env.process_json),
        );
        let process_xml = EnvVarNames::ProcessXml.is_on_or_unset(opt_as_str(&env.process_xml));
        let pure_bom_novulns = match args.pure_bom_novulns {
            Some(pure_bom) => pure_bom,
            None => EnvVarNames::PureBomNoVulns.is_on(opt_as_str(&env.pure_bom_novulns)),
        };
        let show_components = match args.show_components {
            Some(show) => show,
            None => EnvVarNames::ShowComponentList.is_on_or_unset(
                opt_as_str(&env.show_components),
            ),
        };
        let report_title = match args.report_title {
            Some(title) => Some(title),
            None => env.report_title,
        };
        let pdf_meta_name = match args.meta_name {
            Some(name) => Some(name),
            None => env.pdf_name,
        };
        let both_off = !(process_json || process_xml);
        if both_off {
            process_json = true;
        }
        let mut file_types_to_process: Vec<(InputFileType, bool)> = Vec::new();
        file_types_to_process.push((InputFileType::JSON, process_json));
        file_types_to_process.push((InputFileType::XML, process_xml));
        let config = Config {
            working_path,
            output_dir,
            show_novulns_msg,
            file_types_to_process: Some(file_types_to_process),
            pure_bom_novulns,
            show_components,
            report_title,
            pdf_meta_name,
            max_jobs: args.max_jobs,
        };
        (config, both_off)
    }

    /// Sets the file or directory to convert.
    pub fn working_path(self, path: &str) -> (config: Self)
        ensures
            config.working_path@ == path@,
            config == (Config { working_path: config.working_path, ..self }),
    {
        let mut config = self;
        config.working_path = String::from_str(path);
        config
    }

    /// Sets the directory that the reports are written to.
    pub fn output_dir(self, path: &str) -> (config: Self)
        ensures
            config.output_dir@ == path@,
            config == (Config { output_dir: config.output_dir, ..self }),
    {
        let mut config = self;
        config.output_dir = String::from_str(path);
        config
    }

    /// Sets whether a report without vulnerabilities says so.
    pub fn show_novulns_msg(self, show: bool) -> (config: Self)
        ensures
            config == (Config { show_novulns_msg: show, ..self }),
    {
        let mut config = self;
        config.show_novulns_msg = show;
        config
    }

    /// Sets which kinds of file are processed.
    pub fn file_types_to_process(self, types: Option<Vec<(InputFileType, bool)>>) -> (config: Self)
        ensures
            config == (Config { file_types_to_process: types, ..self }),
    {
        let mut config = self;
        config.file_types_to_process = types;
        config
    }

    /// Sets whether the report lists the components only.
    pub fn pure_bom_novulns(self, pure_bom: bool) -> (config: Self)
        ensures
            config == (Config { pure_bom_novulns: pure_bom, ..self }),
    {
        let mut config = self;
        config.pure_bom_novulns = pure_bom;
        config
    }

    /// Sets whether the report lists the components after the vulnerabilities.
    pub fn show_components(self, show: bool) -> (config: Self)
        ensures
            config == (Config { show_components: show, ..self }),
    {
        let mut config = self;
        config.show_components = show;
        config
    }

    /// Sets the heading on the first page.
    pub fn report_title(self, title: &str) -> (config: Self)
        ensures
            config.report_title matches Some(text) && text@ == title@,
            config == (Config { report_title: config.report_title, ..self }),
    {
        let mut config = self;
        config.report_title = Some(String::from_str(title));
        config
    }

    /// Sets the title in the PDF's metadata.
    pub fn pdf_meta_name(self, name: &str) -> (config: Self)
        ensures
            config.pdf_meta_name matches Some(text) && text@ == name@,
            config == (Config { pdf_meta_name: config.pdf_meta_name, ..self }),
    {
        let mut config = self;
        config.pdf_meta_name = Some(String::from_str(name));
        config
    }

    /// Sets how many jobs run side by side.
    pub fn max_jobs(self, jobs: Option<u8>) -> (config: Self)
        ensures
            config == (Config { max_jobs: jobs, ..self }),
    {
        let mut config = self;
        config.max_jobs = jobs;
        config
    }

    /// What the switches say of a kind.
    fn lookup_switch(switches: &Vec<(InputFileType, bool)>, kind: InputFileType) -> (found: Option<
        bool,
    >)
        ensures
            found == switch_of(switches@, kind),
    {
        let mut i: usize = switches.len();
        assert(switches@.take(i as int) =~= switches@);
        while i > 0
            invariant
                i <= switches.len(),
                switch_of(switches@, kind) == switch_of(switches@.take(i as int), kind),
            decreases i,
        {
            proof {
                assert(switches@.take(i as int).drop_last() =~= switches@.take(i - 1));
            }
            if switches[i - 1].0 == kind {
                return Some(switches[i - 1].1);
            }
            i -= 1;
        }
        None
    }

    /// Whether the user has switched a kind off.
    pub fn is_ignored_type(&self, kind: InputFileType) -> (off: bool)
        ensures
            off == is_switched_off(opt_switches_view(self.file_types_to_process), kind),
    {
        match &self.file_types_to_process {
            Some(list) => match Self::lookup_switch(list, kind) {
                Some(on) => !on,
                None => false,
            },
            None => false,
        }
    }

    /// The kinds that the user has switched off, each once.
    pub fn ignored_types(&self) -> (ignored: Vec<InputFileType>)
        ensures
            ignored@.to_set() == switched_off_kinds(opt_switches_view(self.file_types_to_process)),
            ignored@.no_duplicates(),
    {
        let mut ignored: Vec<InputFileType> = Vec::new();
        if self.is_ignored_type(InputFileType::XML) {
            ignored.push(InputFileType::XML);
        }
        if self.is_ignored_type(InputFileType::JSON) {
            ignored.push(InputFileType::JSON);
        }
        if self.is_ignored_type(InputFileType::UNSUPPORTED) {
            ignored.push(InputFileType::UNSUPPORTED);
        }
        proof {
            let off = |kind: InputFileType|
                is_switched_off(opt_switches_view(self.file_types_to_process), kind);
            assert forall|kind: InputFileType| ignored@.contains(kind) <==> off(kind) by {
                if off(kind) {
                    if kind == InputFileType::XML {
                        assert(ignored@[0] == kind);
                    } else if kind == InputFileType::JSON {
                        if off(InputFileType::XML) {
                            assert(ignored@[1] == kind);
                        } else {
                            assert(ignored@[0] == kind);
                        }
                    } else {
                        assert(ignored@[ignored@.len() - 1] == kind);
                    }
                }
            }
        }
        ignored
    }
}

/// An optional `String` as an optional string slice.
fn opt_as_str(value: &Option<String>) -> (slice: Option<&str>)
    ensures
        match slice {
            Some(text) => value matches Some(owned) && text@ == owned@,
            None => value is None,
        },
{
    match value {
        Some(text) => Some(text.as_str()),
        None => None,
    }
}

impl Default for Config {
    /// The settings of a run without any choice made: the current directory,
    /// written `.`, as input and output; both kinds of file processed; the
    /// message for no vulnerabilities and the component list shown; the default
    /// titles; as many jobs as the machine offers.
    fn default() -> (config: Self)
        ensures
            config.working_path@ == "."@,
            config.output_dir@ == "."@,
            config.show_novulns_msg,
            opt_switches_view(config.file_types_to_process) == Some(
                seq![(InputFileType::JSON, true), (InputFileType::XML, true)],
            ),
            !config.pure_bom_novulns,
            config.show_components,
            config.report_title matches Some(title) && title@ == "Vulnerability Report Document"@,
            config.pdf_meta_name matches Some(name) && name@ == "VEX Vulnerability Report"@,
            config.max_jobs is None,
    {
        let mut file_types_to_process: Vec<(InputFileType, bool)> = Vec::new();
        file_types_to_process.push((InputFileType::JSON, true));
        file_types_to_process.push((InputFileType::XML, true));
        Config {
            working_path: String::from_str("."),
            output_dir: String::from_str("."),
            show_novulns_msg: true,
            file_types_to_process: Some(file_types_to_process),
            pure_bom_novulns: false,
            show_components: true,
            report_title: Some(String::from_str(Self::get_default_report_title())),
            pdf_meta_name: Some(String::from_str(Self::get_default_pdf_meta_name())),
            max_jobs: None,
        }
    }
}

} // verus!
