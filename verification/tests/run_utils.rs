use vex2pdf::lib_utils::errors::Vex2PdfError;
use vex2pdf::lib_utils::run_utils::{
    get_output_pdf_path, get_output_pdf_path_probed, get_version_info, place_report, ReportPlace,
};

#[test]
fn test_path_build_no_dest_dir() {
    let path = String::from("/tmp/file.json");

    assert_eq!(
        get_output_pdf_path(None, path.as_str()).unwrap(),
        String::from("/tmp/file.pdf")
    );
}

#[test]
fn test_path_build_with_dest_dir() {
    let path = String::from("/tmp/file.json");

    assert_eq!(
        get_output_pdf_path(Some(String::from("/tmp/test_path").as_str()), path.as_str()).unwrap(),
        String::from("/tmp/test_path/file.pdf")
    );

    assert_eq!(
        get_output_pdf_path(Some(String::from("/output/dir").as_str()), path.as_str()).unwrap(),
        String::from("/output/dir/file.pdf")
    );
}

#[test]
fn test_path_build_real_dir_pdf() {
    let path = String::from("/tmp/file.json");
    let new_dest_path = tempfile::env::temp_dir();

    assert_eq!(
        get_output_pdf_path(None, path.as_str()).unwrap(),
        String::from("/tmp/file.pdf")
    );
    assert_eq!(
        get_output_pdf_path(Some(new_dest_path.to_str().unwrap()), path.as_str()).unwrap(),
        new_dest_path.join("file.pdf").to_str().unwrap()
    );
}

#[test]
fn test_path_build_file_as_dest_dir_fails() {
    let path = String::from("/tmp/file.json");
    let fake_file = tempfile::NamedTempFile::new().unwrap();

    let result = get_output_pdf_path(Some(fake_file.path().to_str().unwrap()), path.as_str());
    assert!(result.is_err());
}

#[test]
fn report_path_for_each_kind_of_output_directory() {
    assert_eq!(
        get_output_pdf_path(None, "/a/b/report.json").unwrap(),
        "/a/b/report.pdf"
    );
    assert_eq!(
        get_output_pdf_path_probed(Some("/out"), false, "/a/b/report.json").unwrap(),
        "/out/report.pdf"
    );
    match get_output_pdf_path_probed(Some("/out/x"), true, "/a/b/report.json") {
        Err(Vex2PdfError::InvalidOutputDir(dir)) => assert_eq!(dir, "/out/x"),
        _ => panic!("a file as output directory must be refused"),
    }
    let existing = tempfile::NamedTempFile::new().unwrap();
    let existing_path = existing.path().to_str().unwrap();
    match get_output_pdf_path(Some(existing_path), "/a/b/report.json") {
        Err(Vex2PdfError::InvalidOutputDir(dir)) => assert_eq!(dir, existing_path),
        _ => panic!("an existing file as output directory must be refused"),
    }
}

#[test]
fn path_without_stem_is_refused_before_the_directory_is_looked_at() {
    match get_output_pdf_path_probed(Some("/out/x"), true, "/") {
        Err(Vex2PdfError::InvalidFileStem(path)) => assert_eq!(path, "/"),
        _ => panic!("a path without a file name has no stem"),
    }
    match get_output_pdf_path(None, "..") {
        Err(Vex2PdfError::InvalidFileStem(path)) => assert_eq!(path, ".."),
        _ => panic!("a path that ends in `..` has no stem"),
    }
}

#[test]
fn only_the_last_extension_is_replaced() {
    assert_eq!(
        get_output_pdf_path(None, "/a/bom.cdx.json").unwrap(),
        "/a/bom.cdx.pdf"
    );
    assert_eq!(get_output_pdf_path(None, "bom").unwrap(), "bom.pdf");
    assert_eq!(
        get_output_pdf_path_probed(Some("out/"), false, "in/bom.xml").unwrap(),
        "out/bom.pdf"
    );
}

#[test]
fn version_info_names_program_and_licence() {
    let info = get_version_info();
    assert!(info.starts_with("vex2pdf "));
    assert!(info.contains("CycloneDX (VEX) to PDF Converter"));
    assert!(info.ends_with("Copyright (c) 2025 Salem B. - MIT Or Apache 2.0 License"));
}

#[test]
fn report_is_placed_by_stem_and_output_directory() {
    assert_eq!(
        place_report(Some(String::from("report")), None, false, "/a/b/report.json").unwrap(),
        ReportPlace::BesideInput(String::from("report.pdf"))
    );
    assert_eq!(
        place_report(Some(String::from("report")), None, true, "/a/b/report.json").unwrap(),
        ReportPlace::BesideInput(String::from("report.pdf"))
    );
    assert_eq!(
        place_report(Some(String::from("report")), Some("/out"), false, "/a/b/report.json")
            .unwrap(),
        ReportPlace::InDirectory(String::from("/out"), String::from("report.pdf"))
    );
    match place_report(Some(String::from("report")), Some("/out/x"), true, "/a/b/report.json") {
        Err(Vex2PdfError::InvalidOutputDir(dir)) => assert_eq!(dir, "/out/x"),
        _ => panic!("a file as output directory must be refused"),
    }
    match place_report(None, Some("/out/x"), true, "/a/b/..") {
        Err(Vex2PdfError::InvalidFileStem(path)) => assert_eq!(path, "/a/b/.."),
        _ => panic!("a path without a stem must be refused first"),
    }
    assert_eq!(
        place_report(Some(String::new()), Some(""), false, "x").unwrap(),
        ReportPlace::InDirectory(String::new(), String::from(".pdf"))
    );
}
