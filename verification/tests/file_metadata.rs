use archive_helper::file_metadata::get_file_metadata;
use archive_helper::file_metadata::get_from_dir;
use archive_helper::file_metadata::FileMetadata;

const TEST_FILES: &str = "./src";

#[test]
fn file_metadata_get_dir_with_no_wildcard() {
    let path = get_from_dir(&FileMetadata {
        path: String::from("/some/test/path"),
        wildcard: None,
        is_directory: true,
    });
    assert_eq!(path, "/some/test/path/*");
}

#[test]
fn file_metadata_get_dir_with_wildcard() {
    let path = get_from_dir(&FileMetadata {
        path: String::from("/some/test/path"),
        wildcard: Some(String::from("*.txt")),
        is_directory: true,
    });
    assert_eq!(path, "/some/test/path/*.txt");
}

#[test]
fn file_metadata_get_short_name_of_dir() {
    let metadata = FileMetadata {
        path: String::from("/some/test/path/my_dir"),
        wildcard: None,
        is_directory: true,
    };
    assert_eq!(metadata.to_short_name().unwrap(), "my_dir");
}

#[test]
fn file_metadata_get_short_name_of_file() {
    let metadata = FileMetadata {
        path: String::from("/some/test/path/my_file"),
        wildcard: None,
        is_directory: false,
    };
    assert_eq!(metadata.to_short_name().unwrap(), "my_file");
}

#[test]
fn file_metadata_get_short_name_of_file_with_extension() {
    let metadata = FileMetadata {
        path: String::from("/some/test/path/my_file.txt"),
        wildcard: None,
        is_directory: false,
    };
    assert_eq!(metadata.to_short_name().unwrap(), "my_file");
}

#[test]
fn file_metadata_should_get_metadata() {
    let metadata = get_file_metadata(TEST_FILES).unwrap();
    assert!(metadata.is_directory);
    assert!(metadata.wildcard.is_none());
    assert_eq!(metadata.path, TEST_FILES);
}

#[test]
fn file_metadata_should_get_metadata_with_wildcard_file_extension() {
    let path = format!("{TEST_FILES}/*.txt");
    let metadata = get_file_metadata(&path).unwrap();
    assert!(metadata.is_directory);
    assert_eq!(metadata.path, TEST_FILES);
    assert_eq!(metadata.wildcard.unwrap(), "*.txt");
}

#[test]
fn file_metadata_should_get_metadata_with_wildcard_file_name() {
    let path = format!("{TEST_FILES}/some_file*");
    let metadata = get_file_metadata(&path).unwrap();
    assert!(metadata.is_directory);
    assert_eq!(metadata.path, TEST_FILES);
    assert_eq!(metadata.wildcard.unwrap(), "some_file*");
}

#[test]
fn file_metadata_should_get_metadata_with_double_wildcard_file_name() {
    let path = format!("{TEST_FILES}/*some_file*");
    let metadata = get_file_metadata(&path).unwrap();
    assert!(metadata.is_directory);
    assert_eq!(metadata.path, TEST_FILES);
    assert_eq!(metadata.wildcard.unwrap(), "*some_file*");
}
