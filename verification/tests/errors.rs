use vex2pdf::lib_utils::errors::{IoError, IoErrorKind, Vex2PdfError};

#[test]
fn every_error_has_its_message() {
    assert_eq!(
        Vex2PdfError::Io(IoError::new(IoErrorKind::Other, "broken pipe")).to_string(),
        "broken pipe"
    );
    assert_eq!(
        Vex2PdfError::InvalidOutputDir(String::from("/out/x")).to_string(),
        "`/out/x` should be a directory but isn't"
    );
    assert_eq!(
        Vex2PdfError::InvalidFileStem(String::from("/")).to_string(),
        "failed to extract filename stem from `/`"
    );
    assert_eq!(
        Vex2PdfError::Parse(String::from("unexpected end of input")).to_string(),
        "unexpected end of input"
    );
    assert_eq!(
        Vex2PdfError::UnsupportedFileType.to_string(),
        "Unsupported file type for parsing"
    );
    assert_eq!(
        Vex2PdfError::IgnoredByUser.to_string(),
        "file ignored explicitly by user"
    );
    assert_eq!(
        Vex2PdfError::ConcurrencyError(String::from("pool closed")).to_string(),
        "Concurrency error : pool closed"
    );
}

#[test]
fn only_the_ignored_file_is_informational() {
    assert!(Vex2PdfError::IgnoredByUser.is_informational());
    assert!(!Vex2PdfError::UnsupportedFileType.is_informational());
    assert!(!Vex2PdfError::Io(IoError::not_found()).is_informational());
    assert!(!Vex2PdfError::Parse(String::new()).is_informational());
}

#[test]
fn io_error_becomes_the_io_variant() {
    let error: Vex2PdfError = IoError::new(IoErrorKind::PermissionDenied, "denied").into();
    match error {
        Vex2PdfError::Io(e) => {
            assert_eq!(e.kind, IoErrorKind::PermissionDenied);
            assert_eq!(e.message, "denied");
        }
        _ => panic!("an I/O error stays an I/O error"),
    }
}

#[test]
fn send_failure_is_a_concurrency_error() {
    let error = Vex2PdfError::from_send_failure("sending on a closed channel");
    assert_eq!(
        error.to_string(),
        "Concurrency error : Attempted to send where there are no more receivers. sending on a closed channel"
    );
}
