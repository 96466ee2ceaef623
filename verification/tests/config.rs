use std::path::Path;
use vex2pdf::files_proc::model::input_file_type::InputFileType;
use vex2pdf::lib_utils::config::Config;

#[test]
fn test_builder_working_path() {
    let config = Config::default().working_path("/tmp/test");
    assert_eq!(config.working_path, String::from("/tmp/test"));
}

#[test]
fn test_builder_output_dir() {
    let config = Config::default().output_dir("/tmp/output");
    assert_eq!(config.output_dir, String::from("/tmp/output"));
}

#[test]
fn test_builder_show_novulns_msg() {
    let config = Config::default().show_novulns_msg(false);
    assert_eq!(config.show_novulns_msg, false);
}

#[test]
fn test_builder_pure_bom_novulns() {
    let config = Config::default().pure_bom_novulns(true);
    assert_eq!(config.pure_bom_novulns, true);
}

#[test]
fn test_builder_show_components() {
    let config = Config::default().show_components(false);
    assert_eq!(config.show_components, false);
}

#[test]
fn test_builder_report_title() {
    let config = Config::default().report_title("Custom Title");
    assert_eq!(config.report_title, Some("Custom Title".to_string()));
}

#[test]
fn test_builder_pdf_meta_name() {
    let config = Config::default().pdf_meta_name("Custom Meta");
    assert_eq!(config.pdf_meta_name, Some("Custom Meta".to_string()));
}

#[test]
fn test_builder_max_jobs() {
    let config = Config::default().max_jobs(Some(4));
    assert_eq!(config.max_jobs, Some(4));
}

#[test]
fn test_builder_chaining() {
    let config = Config::default()
        .working_path("/tmp/input")
        .output_dir("/tmp/output")
        .max_jobs(Some(2))
        .report_title("Chained Config")
        .show_components(false);

    assert_eq!(config.working_path, String::from("/tmp/input"));
    assert_eq!(config.output_dir, String::from("/tmp/output"));
    assert_eq!(config.max_jobs, Some(2));
    assert_eq!(config.report_title, Some("Chained Config".to_string()));
    assert_eq!(config.show_components, false);
}

#[test]
fn test_default_values() {
    let config = Config::default();
    assert_eq!(config.show_novulns_msg, true);
    assert_eq!(config.show_components, true);
    assert_eq!(config.pure_bom_novulns, false);
    assert!(Path::new(&config.working_path).exists());
}

#[test]
fn test_get_default_titles() {
    assert_eq!(
        Config::get_default_report_title(),
        "Vulnerability Report Document"
    );
    assert_eq!(
        Config::get_default_pdf_meta_name(),
        "VEX Vulnerability Report"
    );
}

#[test]
fn defaults_process_both_kinds_with_default_titles() {
    let config = Config::default();
    assert_eq!(config.working_path, ".");
    assert_eq!(config.output_dir, ".");
    assert_eq!(
        config.file_types_to_process,
        Some(vec![(InputFileType::JSON, true), (InputFileType::XML, true)])
    );
    assert_eq!(
        config.report_title.as_deref(),
        Some("Vulnerability Report Document")
    );
    assert_eq!(
        config.pdf_meta_name.as_deref(),
        Some("VEX Vulnerability Report")
    );
    assert_eq!(config.max_jobs, None);
    assert!(config.ignored_types().is_empty());
}

#[test]
fn the_last_switch_for_a_kind_decides() {
    let config = Config::default().file_types_to_process(Some(vec![
        (InputFileType::JSON, false),
        (InputFileType::XML, false),
        (InputFileType::JSON, true),
    ]));
    assert!(!config.is_ignored_type(InputFileType::JSON));
    assert!(config.is_ignored_type(InputFileType::XML));
    assert!(!config.is_ignored_type(InputFileType::UNSUPPORTED));
    assert_eq!(config.ignored_types(), vec![InputFileType::XML]);

    let none = Config::default().file_types_to_process(None);
    assert!(none.ignored_types().is_empty());
}
