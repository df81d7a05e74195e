use archive_helper::string_utils::find_dir_of_wildcard_files;
use archive_helper::string_utils::find_file_extension;
use archive_helper::string_utils::last_index_of_char;

#[test]
fn string_utils_should_find_dir_of_wildcard_files() {
    let dir = find_dir_of_wildcard_files("/foo/bar/path/file*").unwrap();
    assert_eq!(dir, "/foo/bar/path");

    let dir = find_dir_of_wildcard_files("/foo/bar/path/*.txt").unwrap();
    assert_eq!(dir, "/foo/bar/path");
}

#[test]
fn should_fail_for_invalid_wildcard_index() {
    let dir = find_dir_of_wildcard_files("/foo/bar/*/file.txt");
    assert!(dir.is_err());
}

#[test]
fn should_find_file_extension() {
    let ext = find_file_extension("/foo/bar/path/file.zip").unwrap();
    assert_eq!(ext, ".zip");
}

#[test]
fn should_find_last_index_of_char() {
    let index = last_index_of_char("/foo/bar/path/example_file.txt", '/').unwrap();
    assert_eq!(13, index);

    let option = last_index_of_char("/foo/bar/file", '.');
    assert!(option.is_none());
}

#[test]
fn should_fail_for_wildcard_without_separator() {
    let dir = find_dir_of_wildcard_files("*.txt");
    assert!(dir.is_err());
}

#[test]
fn should_report_missing_extension() {
    let ext = find_file_extension("/foo/bar/file");
    assert_eq!(ext.unwrap_err(), "No extension found.");
}
