use tempfile::NamedTempFile;
use vex2pdf::files_proc::model::files_pending_proc::FilesPendingProc;
use vex2pdf::files_proc::model::input_file_type::InputFileType;
use vex2pdf::lib_utils::errors::Vex2PdfError;

fn temp_file(suffix: &str) -> NamedTempFile {
    tempfile::Builder::new()
        .suffix(&format!("_{suffix}"))
        .tempfile()
        .unwrap()
}

fn path_of(file: &NamedTempFile) -> &str {
    file.path().to_str().unwrap()
}

fn create_multiple_files(count: usize) -> (Vec<NamedTempFile>, FilesPendingProc) {
    let mut processor = FilesPendingProc::new();
    let mut files = Vec::with_capacity(count);

    for _ in 0..count {
        files.push(temp_file("test.json"));
    }

    for file in &files {
        let _ = processor.add_supported_file(path_of(file));
    }

    (files, processor)
}

#[test]
fn test_new() {
    let processor: FilesPendingProc = FilesPendingProc::new();
    assert!(processor.get_files_ref().is_empty());
}

#[test]
fn test_with_capacity() {
    let processor: FilesPendingProc = FilesPendingProc::with_capacity(10);
    assert!(processor.get_files_ref().is_empty());
}

#[test]
fn test_add_supported_file_success() {
    let mut processor: FilesPendingProc = FilesPendingProc::new();
    let temp_file = temp_file("test.json");

    let result = processor.add_supported_file(path_of(&temp_file));

    assert!(result.is_ok());
    assert_eq!(processor.get_files_ref().len(), 1);
}

#[test]
fn test_add_supported_file_unsupported() {
    let mut processor: FilesPendingProc = FilesPendingProc::new();
    let temp_unsupported = temp_file("test.unsupported");

    let result = processor.add_supported_file(path_of(&temp_unsupported));

    assert!(result.is_err());
    assert!(matches!(result, Err(Vex2PdfError::UnsupportedFileType)));
    assert!(processor.get_files_ref().is_empty());
}

#[test]
fn test_add_supported_file_duplicate() {
    let mut processor: FilesPendingProc = FilesPendingProc::new();

    let temp_file = temp_file("test.json");
    let path1 = path_of(&temp_file);
    let path2 = path1;

    let result1 = processor.add_supported_file(path1);
    let result2 = processor.add_supported_file(path2);

    assert!(result1.is_ok());
    assert!(result2.is_ok());
    assert_eq!(processor.get_files_ref().len(), 1);
}

#[test]
fn test_add_sup_file_ignore_not_ignored() {
    let mut processor: FilesPendingProc = FilesPendingProc::new();
    let temp_file = temp_file("test.json");
    let ignored_types = Vec::new();

    let result = processor.add_sup_file_ignore(path_of(&temp_file), &ignored_types);

    assert!(result.is_ok());
    assert_eq!(processor.get_files_ref().len(), 1);
}

#[test]
fn test_add_sup_file_ignore_is_ignored() {
    let mut processor: FilesPendingProc = FilesPendingProc::new();
    let temp_file = temp_file("test.json");
    let mut ignored_types = Vec::new();
    ignored_types.push(InputFileType::JSON);

    let result = processor.add_sup_file_ignore(path_of(&temp_file), &ignored_types);

    assert!(result.is_err());
    assert!(matches!(result, Err(Vex2PdfError::IgnoredByUser)));
    assert!(processor.get_files_ref().is_empty());
}

#[test]
fn test_add_sup_file_ignore_unsupported() {
    let mut processor: FilesPendingProc = FilesPendingProc::new();

    let ignored_types = Vec::new();
    let temp_file = temp_file("temp_file");

    let result = processor.add_sup_file_ignore(path_of(&temp_file), &ignored_types);

    assert!(result.is_err());
    assert!(matches!(result, Err(Vex2PdfError::UnsupportedFileType)));
    assert!(processor.get_files_ref().is_empty());
}

#[test]
fn test_multiple_supported_files() {
    let mut processor: FilesPendingProc = FilesPendingProc::new();
    let temp_json = temp_file("test.json");
    let temp_xml = temp_file("test.xml");

    let result1 = processor.add_supported_file(path_of(&temp_json));
    let result2 = processor.add_supported_file(path_of(&temp_xml));

    assert!(result1.is_ok());
    assert!(result2.is_ok());
    assert_eq!(processor.get_files_ref().len(), 2);
}

#[test]
fn test_get_files_immutable_reference() {
    let mut processor: FilesPendingProc = FilesPendingProc::new();
    let temp_json = temp_file("test.json");
    let _ = processor.add_supported_file(path_of(&temp_json));

    let files_ref = processor.get_files_ref();
    assert_eq!(files_ref.len(), 1);
}

#[test]
fn test_file_count() {
    let (_files, processor) = create_multiple_files(6);
    assert_eq!(processor.get_file_count(), 6);
}

#[test]
fn test_file_count_by_type() {
    let mut processor = FilesPendingProc::new();
    let temp_file_1 = temp_file("test.json");
    let second_temp_file = temp_file("test.json");
    let another_temp_file = temp_file("test.xml");
    let unsupported_file = temp_file("test.cfg");

    let _ = processor.add_supported_file(path_of(&temp_file_1));
    let _ = processor.add_supported_file(path_of(&second_temp_file));
    let _ = processor.add_supported_file(path_of(&another_temp_file));
    let _ = processor.add_supported_file(path_of(&unsupported_file));

    assert_eq!(processor.get_file_count_by_type(InputFileType::JSON), 2);
    assert_eq!(processor.get_file_count_by_type(InputFileType::XML), 1);
    assert_eq!(
        processor.get_file_count_by_type(InputFileType::UNSUPPORTED),
        0
    );
}

#[test]
fn test_consuming_iter() {
    let count = 6;
    let (_files, processor) = create_multiple_files(count);

    let mut iter_count = 0usize;
    for _file in processor {
        iter_count += 1;
    }

    assert_eq!(count, iter_count);
}

#[test]
fn inserting_twice_does_not_raise_the_count() {
    let mut pending = FilesPendingProc::new();
    assert!(pending.add_supported_file_probed("/x/a.json", true).is_ok());
    let after_first = pending.get_file_count();
    assert!(pending.add_supported_file_probed("/x/a.json", true).is_ok());
    assert_eq!(pending.get_file_count(), after_first);
    assert_eq!(after_first, 1);
    assert!(pending.add_supported_file_probed("/x/b.json", true).is_ok());
    assert!(pending.add_supported_file_probed("/x/a.json", true).is_ok());
    assert_eq!(pending.get_file_count(), 2);
}

#[test]
fn missing_path_is_not_found_before_anything_else() {
    let mut pending = FilesPendingProc::new();
    let ignored = vec![InputFileType::JSON];
    let result = pending.add_sup_file_ignore_probed("/x/a.json", false, &ignored);
    assert!(matches!(result, Err(Vex2PdfError::Io(_))));
    let result = pending.add_sup_file_ignore_probed("/x/a.txt", false, &ignored);
    assert!(matches!(result, Err(Vex2PdfError::Io(_))));
    assert_eq!(pending.get_file_count(), 0);
}

#[test]
fn ignored_kind_is_reported_as_ignored_not_as_unsupported() {
    let mut pending = FilesPendingProc::new();
    let ignored = vec![InputFileType::XML];
    let result = pending.add_sup_file_ignore_probed("/x/a.xml", true, &ignored);
    assert!(matches!(result, Err(Vex2PdfError::IgnoredByUser)));
    assert!(pending.add_sup_file_ignore_probed("/x/a.json", true, &ignored).is_ok());
    assert_eq!(pending.get_file_count_by_type(InputFileType::XML), 0);
    assert_eq!(pending.get_file_count_by_type(InputFileType::JSON), 1);
}

#[test]
fn unsupported_kind_stays_unsupported_even_when_ignored() {
    let mut pending = FilesPendingProc::new();
    let ignored = vec![InputFileType::UNSUPPORTED];
    let result = pending.add_sup_file_ignore_probed("/x/a.txt", true, &ignored);
    assert!(matches!(result, Err(Vex2PdfError::UnsupportedFileType)));
    assert!(pending.get_files_ref().is_empty());
}

#[test]
fn files_come_out_once_each() {
    let mut pending = FilesPendingProc::new();
    for name in ["/d/a.json", "/d/b.xml", "/d/a.json", "/d/c.JSON", "/d/b.xml"] {
        assert!(pending.add_supported_file_probed(name, true).is_ok());
    }
    let mut paths: Vec<String> = pending
        .into_files()
        .iter()
        .map(|f| f.get_path().clone())
        .collect();
    paths.sort();
    assert_eq!(paths, vec!["/d/a.json", "/d/b.xml", "/d/c.JSON"]);
}

#[test]
fn default_set_is_empty() {
    let pending = FilesPendingProc::default();
    assert_eq!(pending.get_file_count(), 0);
    assert!(pending.get_files_ref().is_empty());
}
