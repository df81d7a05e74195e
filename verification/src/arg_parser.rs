//! Mapping of a command-line action flag to the synthesized command for an
//! already-resolved path.

use vstd::prelude::*;
use vstd::string::StringExecFns;
use crate::command_builder::spec_bulk_cmd;
use crate::command_builder::spec_strip_wildcard_suffix;
use crate::command_builder::spec_tar_cmd;
use crate::command_builder::spec_unpack_cmd;
use crate::command_builder::spec_zip_cmd;
use crate::command_builder::tar_path;
use crate::command_builder::unpack_all_in_path;
use crate::command_builder::unpack_path;
use crate::command_builder::zip_path;
use crate::error::OperationError;
use crate::file_metadata::FileMetadata;
use crate::file_metadata::spec_string_path;
use crate::string_utils::decimal_string;
use crate::string_utils::spec_decimal;
use crate::string_utils::str_eq_str;

verus! {

/// The flags that request extraction of a single archive.
pub open spec fn is_unpack_action(a: Seq<char>) -> bool {
    a == "-x"@ || a == "-u"@ || a == "--unpack"@ || a == "-d"@ || a == "--decompress"@
}

/// The flags that request bulk extraction of a directory.
pub open spec fn is_extract_all_action(a: Seq<char>) -> bool {
    a == "-xa"@ || a == "-ax"@ || a == "--extract-all"@
}

/// The flags that request a plain zip.
pub open spec fn is_zip_action(a: Seq<char>) -> bool {
    a == "-z"@ || a == "--zip"@
}

/// The flags that request a password-protected zip.
pub open spec fn is_zip_encrypt_action(a: Seq<char>) -> bool {
    a == "-ze"@ || a == "-ez"@ || a == "--zip-encrypt"@
}

/// The flags that request a tar.
pub open spec fn is_tar_action(a: Seq<char>) -> bool {
    a == "-t"@ || a == "--tar"@
}

/// The program name plus the two arguments every command-line run takes: an
/// action flag and a path.
pub const EXPECTED_NUMBER_OF_ARGS: usize = 3;

/// Accepts exactly an action flag and a path after the program name; any
/// other count is reported back, with the count of supplied arguments
/// written out. The count includes the program name, so at least one
/// argument is always present.
pub fn validate_number_of_args(number_of_args: usize) -> (r: Result<(), OperationError>)
    requires
        number_of_args >= 1,
    ensures
        number_of_args == EXPECTED_NUMBER_OF_ARGS <==> r is Ok,
        number_of_args != EXPECTED_NUMBER_OF_ARGS ==> (r matches Err(e) && e matches
            OperationError::FailedToRunCommand(msg) && msg@
            == "Invalid number of arguments. Expected 2, but was "@ + spec_decimal(
            (number_of_args - 1) as nat,
        ) + "."@),
{
    if number_of_args != EXPECTED_NUMBER_OF_ARGS {
        let actual = decimal_string(number_of_args - 1);
        let msg = String::from_str("Invalid number of arguments. Expected 2, but was ").concat(
            actual.as_str(),
        ).concat(".");
        return Err(OperationError::FailedToRunCommand(msg));
    }
    Ok(())
}

/// Builds the command that `action` requests for the resolved path.
/// Extraction takes the resolved base path verbatim; every other operation
/// works on the resolved metadata. `dir_entries` is consulted only by the
/// bulk extract-all actions and holds the listing of the resolved directory.
/// An unrecognized flag is reported back inside `InvalidArgument`.
pub fn parse_cmd(action: &str, metadata: &FileMetadata, dir_entries: &Vec<String>) -> (r: Result<
    String,
    OperationError,
>)
    ensures
        is_unpack_action(action@) ==> (r matches Ok(c) && c@ == spec_unpack_cmd(metadata.path@)),
        !is_unpack_action(action@) && is_extract_all_action(action@) ==> (r matches Ok(c) && c@
            == spec_bulk_cmd(
            spec_strip_wildcard_suffix(spec_string_path(*metadata)),
            dir_entries.deep_view(),
        )),
        !is_unpack_action(action@) && !is_extract_all_action(action@) && is_zip_action(action@)
            ==> (r matches Ok(c) && c@ == spec_zip_cmd(*metadata, false)),
        !is_unpack_action(action@) && !is_extract_all_action(action@) && !is_zip_action(action@)
            && is_zip_encrypt_action(action@) ==> (r matches Ok(c) && c@ == spec_zip_cmd(
            *metadata,
            true,
        )),
        !is_unpack_action(action@) && !is_extract_all_action(action@) && !is_zip_action(action@)
            && !is_zip_encrypt_action(action@) && is_tar_action(action@) ==> (r matches Ok(c)
            && c@ == spec_tar_cmd(*metadata)),
        !is_unpack_action(action@) && !is_extract_all_action(action@) && !is_zip_action(action@)
            && !is_zip_encrypt_action(action@) && !is_tar_action(action@) ==> (r matches Err(e)
            && e matches OperationError::InvalidArgument(msg) && msg@ == "Invalid argument "@
            + action@ + "."@),
{
    if str_eq_str(action, "-x") || str_eq_str(action, "-u") || str_eq_str(action, "--unpack")
        || str_eq_str(action, "-d") || str_eq_str(action, "--decompress") {
        unpack_path(metadata.path.as_str())
    } else if str_eq_str(action, "-xa") || str_eq_str(action, "-ax") || str_eq_str(
        action,
        "--extract-all",
    ) {
        unpack_all_in_path(metadata, dir_entries)
    } else if str_eq_str(action, "-z") || str_eq_str(action, "--zip") {
        zip_path(metadata, false)
    } else if str_eq_str(action, "-ze") || str_eq_str(action, "-ez") || str_eq_str(
        action,
        "--zip-encrypt",
    ) {
        zip_path(metadata, true)
    } else if str_eq_str(action, "-t") || str_eq_str(action, "--tar") {
        tar_path(metadata)
    } else {
        Err(
            OperationError::InvalidArgument(
                String::from_str("Invalid argument ").concat(action).concat("."),
            ),
        )
    }
}

} // verus!
