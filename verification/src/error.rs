//! The error type shared by path resolution and command synthesis.

use vstd::prelude::*;
use vstd::string::StringExecFns;

verus! {

/// Every way a requested operation can fail. Each variant carries the
/// contextual string needed to report it; none is recovered internally.
#[derive(Debug)]
pub enum OperationError {
    InvalidCommand,
    FileDoesNotExist,
    CouldNotCheckFile(String),
    CouldNotFindDirForFileWithWildcard(String),
    FailedToRunCommand(String),
    ArchiveIsDirectory,
    InvalidArgument(String),
    CouldNotSpitPath(String),
    InvalidWildcardIndex,
}

/// The human-readable description of an error.
pub open spec fn spec_message(e: OperationError) -> Seq<char> {
    match e {
        OperationError::InvalidCommand => "Invalid argument. Provide a valid number."@,
        OperationError::FileDoesNotExist => "File does not exist."@,
        OperationError::CouldNotCheckFile(p) =>
            "Failed to check file existence in the path "@ + p@ + "."@,
        OperationError::CouldNotFindDirForFileWithWildcard(p) =>
            "Could not find the directory for files with wildcard "@ + p@ + "."@,
        OperationError::FailedToRunCommand(c) => "Failed to run command: '"@ + c@ + "'."@,
        OperationError::ArchiveIsDirectory => "Archive is a directory."@,
        OperationError::InvalidArgument(a) => "Unknown argument "@ + a@ + "."@,
        OperationError::CouldNotSpitPath(p) => "Could not spit the path: '"@ + p@ + "'."@,
        OperationError::InvalidWildcardIndex =>
            "Wildcard is only supported at the end of a path - e.g. './my/path/file*' or './my/path/.*txt'"@,
    }
}

impl OperationError {
    /// The human-readable description of this error.
    pub fn message(&self) -> (r: String)
        ensures
            r@ == spec_message(*self),
    {
        match self {
            OperationError::InvalidCommand => String::from_str(
                "Invalid argument. Provide a valid number.",
            ),
            OperationError::FileDoesNotExist => String::from_str("File does not exist."),
            OperationError::CouldNotCheckFile(p) => String::from_str(
                "Failed to check file existence in the path ",
            ).concat(p.as_str()).concat("."),
            OperationError::CouldNotFindDirForFileWithWildcard(p) => String::from_str(
                "Could not find the directory for files with wildcard ",
            ).concat(p.as_str()).concat("."),
            OperationError::FailedToRunCommand(c) => String::from_str(
                "Failed to run command: '",
            ).concat(c.as_str()).concat("'."),
            OperationError::ArchiveIsDirectory => String::from_str("Archive is a directory."),
            OperationError::InvalidArgument(a) => String::from_str("Unknown argument ").concat(
                a.as_str(),
            ).concat("."),
            OperationError::CouldNotSpitPath(p) => String::from_str(
                "Could not spit the path: '",
            ).concat(p.as_str()).concat("'."),
            OperationError::InvalidWildcardIndex => String::from_str(
                "Wildcard is only supported at the end of a path - e.g. './my/path/file*' or './my/path/.*txt'",
            ),
        }
    }
}

} // verus!
