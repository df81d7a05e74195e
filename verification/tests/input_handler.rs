use archive_helper::file_metadata::get_file_metadata;

const TEST_FILES: &str = ".";

#[test]
fn input_handler_should_get_metadata() {
    let metadata = get_file_metadata(TEST_FILES).unwrap();
    assert!(metadata.is_directory);
    assert!(metadata.wildcard.is_none());
    assert_eq!(metadata.path, TEST_FILES);
    assert_eq!(metadata.wildcard.unwrap_or_default(), "");
}

#[test]
fn should_get_metadata_with_wildcard() {
    let path = format!("{TEST_FILES}/*.txt");
    let metadata = get_file_metadata(&path).unwrap();
    assert!(metadata.is_directory);
    assert_eq!(metadata.path, TEST_FILES);
    assert!(metadata.wildcard.is_some());
    assert_eq!(metadata.wildcard.unwrap(), "*.txt");
}
