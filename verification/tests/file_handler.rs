use archive_helper::file_metadata::get_file_metadata;

const TEST_FILES: &str = "./tests";

#[test]
fn file_handler_should_get_metadata() {
    let metadata = get_file_metadata(TEST_FILES).unwrap();
    assert!(metadata.is_directory);
    assert!(metadata.wildcard.is_none());
    assert_eq!(metadata.path, TEST_FILES);
}

#[test]
fn file_handler_should_get_metadata_with_wildcard_file_extension() {
    let path = format!("{TEST_FILES}/*.txt");
    let metadata = get_file_metadata(&path).unwrap();
    assert!(metadata.is_directory);
    assert_eq!(metadata.path, TEST_FILES);
    assert_eq!(metadata.wildcard.unwrap(), "*.txt");
}

#[test]
fn file_handler_should_get_metadata_with_wildcard_file_name() {
    let path = format!("{TEST_FILES}/some_file*");
    let metadata = get_file_metadata(&path).unwrap();
    assert!(metadata.is_directory);
    assert_eq!(metadata.path, TEST_FILES);
    assert_eq!(metadata.wildcard.unwrap(), "some_file*");
}

#[test]
fn file_handler_should_get_metadata_with_double_wildcard_file_name() {
    let path = format!("{TEST_FILES}/*some_file*");
    let metadata = get_file_metadata(&path).unwrap();
    assert!(metadata.is_directory);
    assert_eq!(metadata.path, TEST_FILES);
    assert_eq!(metadata.wildcard.unwrap(), "*some_file*");
}
