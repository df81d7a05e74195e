use archive_helper::arg_parser::parse_cmd;
use archive_helper::arg_parser::validate_number_of_args;
use archive_helper::error::OperationError;
use archive_helper::file_metadata::FileMetadata;

const TEST_FILES: &str = "./resources/test/files";
const TEST_ARCHIVE_FILES: &str = "./resources/test/archives";

fn test_metadata() -> FileMetadata {
    FileMetadata {
        path: TEST_FILES.to_owned(),
        wildcard: None,
        is_directory: true,
    }
}

fn test_archives_metadata() -> FileMetadata {
    FileMetadata {
        path: TEST_ARCHIVE_FILES.to_owned(),
        wildcard: None,
        is_directory: true,
    }
}

fn archive_dir_listing() -> Vec<String> {
    vec![
        "resources_archive.tar".to_owned(),
        "resources_archive.zip".to_owned(),
    ]
}

#[test]
fn parse_decompress() {
    for arg in ["-u", "--unpack", "-d", "--decompress", "-x"] {
        let cmd = parse_cmd(arg, &test_metadata(), &Vec::new()).unwrap();
        assert_eq!(cmd, format!("tar -xvf {TEST_FILES}"));
    }
}

#[test]
fn parse_zip() {
    for arg in ["-z", "--zip"] {
        let cmd = parse_cmd(arg, &test_metadata(), &Vec::new()).unwrap();
        assert_eq!("zip -r files_archive.zip ./resources/test/files/*", cmd);
    }
}

#[test]
fn parse_zip_encrypt() {
    for arg in ["-ze", "-ez", "--zip-encrypt"] {
        let cmd = parse_cmd(arg, &test_metadata(), &Vec::new()).unwrap();
        assert_eq!("zip -re files_archive.zip ./resources/test/files/*", cmd);
    }
}

#[test]
fn parse_tar() {
    for arg in ["-t", "--tar"] {
        let cmd = parse_cmd(arg, &test_metadata(), &Vec::new()).unwrap();
        assert_eq!("tar -cf files_archive.tar ./resources/test/files/*", cmd);
    }
}

#[test]
fn extract_multiple_archives() {
    for arg in ["-xa", "-ax", "--extract-all"] {
        let cmd = parse_cmd(arg, &test_archives_metadata(), &archive_dir_listing()).unwrap();
        assert!(cmd.contains("tar -xvf ./resources/test/archives/resources_archive.tar"));
        assert!(cmd.contains("tar -xvf ./resources/test/archives/resources_archive.zip"));
        assert!(cmd.contains(" && "));
    }
}

#[test]
fn validate_number_of_args_accepts_exactly_two() {
    assert!(validate_number_of_args(3).is_ok());
    let result = validate_number_of_args(1);
    assert!(matches!(
        result,
        Err(OperationError::FailedToRunCommand(msg))
            if msg == "Invalid number of arguments. Expected 2, but was 0."
    ));
    let result = validate_number_of_args(13);
    assert!(matches!(
        result,
        Err(OperationError::FailedToRunCommand(msg))
            if msg == "Invalid number of arguments. Expected 2, but was 12."
    ));
}

#[test]
fn parse_unknown_argument() {
    let result = parse_cmd("-q", &test_metadata(), &Vec::new());
    assert!(
        matches!(result, Err(OperationError::InvalidArgument(msg)) if msg == "Invalid argument -q.")
    );
}
