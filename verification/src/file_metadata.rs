//! Resolution of a raw path string into `FileMetadata`: an existing base
//! path, an optional wildcard suffix, and a file-or-directory classification.

use vstd::prelude::*;
use vstd::string::StrSliceExecFns;
use vstd::string::StringExecFns;
use crate::error::OperationError;
use crate::string_utils::contains_char;
use crate::string_utils::find_dir_of_wildcard_files;
use crate::string_utils::first_index_of;
use crate::string_utils::first_index_of_char;
use crate::string_utils::last_index_of;
use crate::string_utils::last_index_of_char;
use crate::string_utils::lemma_first_index_of;
use crate::string_utils::lemma_last_index_of;
use crate::string_utils::spec_wildcard_dir;
use crate::string_utils::spec_wildcard_suffix;

verus! {

/// A resolved path: `path` was checked to exist when the value was built,
/// never holds a wildcard itself, and `wildcard` keeps the raw final segment
/// of the original input when that segment held a `*`.
#[derive(Debug)]
pub struct FileMetadata {
    pub path: String,
    pub wildcard: Option<String>,
    pub is_directory: bool,
}

/// The path argument handed to the archive tools: a file path verbatim, a
/// directory joined with its wildcard suffix, or a directory joined with `*`
/// when the whole directory is selected.
pub open spec fn spec_string_path(m: FileMetadata) -> Seq<char> {
    if m.is_directory {
        match m.wildcard {
            Option::None => m.path@ + "/*"@,
            Option::Some(w) => m.path@ + "/"@ + w@,
        }
    } else {
        m.path@
    }
}

/// The final segment of a path: everything after the last separator, or the
/// whole path when it has no separator.
pub open spec fn spec_last_segment(p: Seq<char>) -> Seq<char> {
    p.skip(last_index_of(p, '/') + 1)
}

/// The text before the first dot of `s`, or all of `s` when it has no dot.
pub open spec fn spec_before_first_dot(s: Seq<char>) -> Seq<char> {
    if s.contains('.') {
        s.take(first_index_of(s, '.'))
    } else {
        s
    }
}

/// The short name a synthesized archive is named after: the final path
/// segment for a directory, and that segment truncated at its first dot for
/// a file.
pub open spec fn spec_short_name(m: FileMetadata) -> Seq<char> {
    if m.is_directory {
        spec_last_segment(m.path@)
    } else {
        spec_before_first_dot(spec_last_segment(m.path@))
    }
}

/// The short name of a directory is its final path segment verbatim; only a
/// file's name is truncated at its first dot.
pub proof fn lemma_short_name_of_directory(m: FileMetadata)
    requires
        m.is_directory,
    ensures
        spec_short_name(m) == spec_last_segment(m.path@),
{
}

/// Joins a directory's path with its wildcard suffix, `*` when none was
/// given.
pub fn get_from_dir(metadata: &FileMetadata) -> (r: String)
    requires
        metadata.is_directory,
    ensures
        r@ == spec_string_path(*metadata),
{
    match &metadata.wildcard {
        Option::None => metadata.path.clone().concat("/*"),
        Option::Some(wildcard) => metadata.path.clone().concat("/").concat(wildcard.as_str()),
    }
}

impl FileMetadata {
    /// The path argument handed to the archive tools; see
    /// [`spec_string_path`].
    pub fn to_string_path(&self) -> (r: String)
        ensures
            r@ == spec_string_path(*self),
    {
        match self.is_directory {
            true => get_from_dir(self),
            false => self.path.clone(),
        }
    }

    /// The short name a synthesized archive is named after; see
    /// [`spec_short_name`]. The result type stays fallible as a defensive
    /// measure, but every resolved path yields a name.
    pub fn to_short_name(&self) -> (r: Result<String, OperationError>)
        ensures
            r matches Ok(n) && n@ == spec_short_name(*self),
    {
        proof {
            lemma_last_index_of(self.path@, '/');
        }
        let len: usize = self.path.as_str().unicode_len();
        let last: &str = match last_index_of_char(self.path.as_str(), '/') {
            Option::Some(i) => self.path.as_str().substring_char(i + 1, len),
            Option::None => self.path.as_str(),
        };
        assert(last@ =~= spec_last_segment(self.path@));

        match self.is_directory {
            true => Ok(last.to_owned()),
            false => {
                proof {
                    lemma_first_index_of(last@, '.');
                }
                match first_index_of_char(last, '.') {
                    Option::Some(j) => {
                        let name = last.substring_char(0, j);
                        assert(name@ =~= spec_before_first_dot(last@));
                        Ok(name.to_owned())
                    },
                    Option::None => Ok(last.to_owned()),
                }
            },
        }
    }

    /// The path of an archive that is to be appended to: a resolved file
    /// path verbatim; a directory is refused.
    pub fn to_archive_path(&self) -> (r: Result<String, OperationError>)
        ensures
            self.is_directory ==> (r matches Err(e) && e is ArchiveIsDirectory),
            !self.is_directory ==> (r matches Ok(p) && p@ == self.path@),
    {
        match self.is_directory {
            false => Ok(self.path.clone()),
            true => Err(OperationError::ArchiveIsDirectory),
        }
    }
}

/// Relies on std::path::Path::try_exists: the result is Some(true) or
/// Some(false) as the probed path exists or not, and None when the check
/// itself failed (for example for lack of permission). The answer depends on
/// the state of the filesystem, so nothing is stated of it.
#[verifier::external_body]
fn path_try_exists(path: &str) -> Option<bool> {
    std::path::Path::new(path).try_exists().ok()
}

/// Relies on std::path::Path::is_dir: the result is true exactly when the
/// probed path exists and refers to a directory. The answer depends on the
/// state of the filesystem, so nothing is stated of it.
#[verifier::external_body]
fn path_is_dir(path: &str) -> bool {
    std::path::Path::new(path).is_dir()
}

/// Resolves a raw path string: splits off a wildcard suffix when one is
/// present, verifies that the remaining base path exists, and classifies it
/// as file or directory.
///
/// The splitting is exact and unconditional: a wildcarded input without a
/// separator, or with its last `*` before its last separator, fails with the
/// matching error before the filesystem is consulted. Whether the base path
/// exists, and how it is classified, comes from the filesystem probes; an
/// `Ok` result always carries the base path and wildcard stated below, and
/// an `Err` past the splitting stage is `FileDoesNotExist` or
/// `CouldNotCheckFile` for the base path.
pub fn get_file_metadata(full_path: &str) -> (r: Result<FileMetadata, OperationError>)
    ensures
        !full_path@.contains('*') ==> {
            &&& (r matches Ok(m) ==> m.path@ == full_path@ && m.wildcard is None)
            &&& (r matches Err(e) ==> e is FileDoesNotExist || (e matches
                OperationError::CouldNotCheckFile(p) && p@ == full_path@))
        },
        full_path@.contains('*') && !full_path@.contains('/') ==> (r matches Err(e)
            && e matches OperationError::CouldNotFindDirForFileWithWildcard(p)
            && p@ == full_path@),
        full_path@.contains('*') && full_path@.contains('/') && last_index_of(full_path@, '*')
            < last_index_of(full_path@, '/') ==> (r matches Err(e) && e is InvalidWildcardIndex),
        full_path@.contains('*') && full_path@.contains('/') && last_index_of(full_path@, '*')
            > last_index_of(full_path@, '/') ==> {
            &&& (r matches Ok(m) ==> m.path@ == spec_wildcard_dir(full_path@) && (m.wildcard
                matches Some(w) && w@ == spec_wildcard_suffix(full_path@)))
            &&& (r matches Err(e) ==> e is FileDoesNotExist || (e matches
                OperationError::CouldNotCheckFile(p) && p@ == spec_wildcard_dir(full_path@)))
        },
{
    let has_wildcard = contains_char(full_path, '*');
    let mut wildcard_value: Option<String> = None;
    let path: String;
    if has_wildcard {
        match find_dir_of_wildcard_files(full_path) {
            Err(e) => {
                return Err(e);
            },
            Ok(dir) => {
                proof {
                    lemma_last_index_of(full_path@, '/');
                    lemma_last_index_of(full_path@, '*');
                }
                let dir_len: usize = dir.as_str().unicode_len();
                let full_len: usize = full_path.unicode_len();
                let w = full_path.substring_char(dir_len + 1, full_len);
                assert(w@ =~= spec_wildcard_suffix(full_path@));
                wildcard_value = Some(w.to_owned());
                path = dir;
            },
        }
    } else {
        path = full_path.to_owned();
    }

    match path_try_exists(path.as_str()) {
        Option::None => Err(OperationError::CouldNotCheckFile(path)),
        Option::Some(false) => Err(OperationError::FileDoesNotExist),
        Option::Some(true) => {
            let is_directory = path_is_dir(path.as_str());
            Ok(FileMetadata { path, wildcard: wildcard_value, is_directory })
        },
    }
}

} // verus!
