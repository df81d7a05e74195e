//! Synthesis of the shell command line for each supported operation:
//! extract, zip (optionally password protected), tar, append to an existing
//! archive, and bulk extraction of every recognized archive in a directory.

use vstd::prelude::*;
use vstd::string::StrSliceExecFns;
use vstd::string::StringExecFns;
use crate::error::OperationError;
use crate::file_metadata::FileMetadata;
use crate::file_metadata::spec_short_name;
use crate::file_metadata::spec_string_path;
use crate::string_utils::find_file_extension;
use crate::string_utils::lemma_last_index_of_unique;
use crate::string_utils::push_char;
use crate::string_utils::spec_extension;
use crate::string_utils::str_eq_str;

verus! {

/// The closed set of recognized archive suffixes. Matching is always done on
/// the text after the last dot of a name, so the compound entries such as
/// `.tar.gz` are listed but can only be reached when a whole suffix is
/// presented directly.
pub open spec fn is_recognized_format(ext: Seq<char>) -> bool {
    ||| ext == ".zip"@
    ||| ext == ".rar"@
    ||| ext == ".ar"@
    ||| ext == ".tar"@
    ||| ext == ".tgz"@
    ||| ext == ".tbz"@
    ||| ext == ".tbz2"@
    ||| ext == ".tzo"@
    ||| ext == ".cab"@
    ||| ext == ".cbz"@
    ||| ext == ".zoo"@
    ||| ext == ".tar.xz"@
    ||| ext == ".tar.gz"@
    ||| ext == ".tar.bz"@
    ||| ext == ".tar.bz2"@
    ||| ext == ".tar.lzo"@
    ||| ext == ".tar.7z"@
}

/// Membership in the closed set of recognized archive suffixes.
pub fn is_valid_archive_format(ext: &str) -> (r: bool)
    ensures
        r == is_recognized_format(ext@),
{
    str_eq_str(ext, ".zip") || str_eq_str(ext, ".rar") || str_eq_str(ext, ".ar") || str_eq_str(
        ext,
        ".tar",
    ) || str_eq_str(ext, ".tgz") || str_eq_str(ext, ".tbz") || str_eq_str(ext, ".tbz2")
        || str_eq_str(ext, ".tzo") || str_eq_str(ext, ".cab") || str_eq_str(ext, ".cbz")
        || str_eq_str(ext, ".zoo") || str_eq_str(ext, ".tar.xz") || str_eq_str(ext, ".tar.gz")
        || str_eq_str(ext, ".tar.bz") || str_eq_str(ext, ".tar.bz2") || str_eq_str(
        ext,
        ".tar.lzo",
    ) || str_eq_str(ext, ".tar.7z")
}

/// A short name with every dot replaced by an underscore and the fixed
/// `_archive` suffix appended: the name the synthesized archive file gets.
pub open spec fn spec_clean_archive_name(short_name: Seq<char>) -> Seq<char> {
    short_name.map_values(|c: char| if c == '.' { '_' } else { c }) + "_archive"@
}

/// Replaces every dot of `short_name` with an underscore and appends the
/// fixed `_archive` suffix, so the synthesized archive's own name never
/// holds a dot that could be misread as a format suffix.
pub fn get_clean_archive_name(short_name: &str) -> (r: String)
    ensures
        r@ == spec_clean_archive_name(short_name@),
{
    let len: usize = short_name.unicode_len();
    let mut cleaned: String = String::new();
    let mut i: usize = 0;
    while i < len
        invariant
            0 <= i <= len,
            len == short_name@.len(),
            cleaned@ =~= short_name@.take(i as int).map_values(
                |c: char| if c == '.' { '_' } else { c },
            ),
        decreases len - i,
    {
        let c = short_name.get_char(i);
        if c == '.' {
            push_char(&mut cleaned, '_');
        } else {
            push_char(&mut cleaned, c);
        }
        i = i + 1;
        assert(cleaned@ =~= short_name@.take(i as int).map_values(
            |c: char| if c == '.' { '_' } else { c },
        ));
    }
    assert(short_name@.take(len as int) =~= short_name@);
    cleaned.concat("_archive")
}

/// The command that extracts one archive: `tar -xvf ` followed by the path.
pub open spec fn spec_unpack_cmd(path: Seq<char>) -> Seq<char> {
    "tar -xvf "@ + path
}

/// Builds the command that extracts the archive at `path`.
pub fn unpack_path(path: &str) -> (r: Result<String, OperationError>)
    ensures
        r matches Ok(c) && c@ == spec_unpack_cmd(path@),
{
    Ok(String::from_str("tar -xvf ").concat(path))
}

/// The flag and name portion shared by both zip commands: the cleaned
/// archive name, its `.zip` suffix, and the path the files come from.
pub open spec fn spec_zip_cmd_tail(m: FileMetadata) -> Seq<char> {
    spec_clean_archive_name(spec_short_name(m)) + ".zip "@ + spec_string_path(m)
}

/// The command that zips a resolved path, with the `e` flag appended when a
/// password prompt is requested.
pub open spec fn spec_zip_cmd(m: FileMetadata, with_password: bool) -> Seq<char> {
    if with_password {
        "zip -re "@ + spec_zip_cmd_tail(m)
    } else {
        "zip -r "@ + spec_zip_cmd_tail(m)
    }
}

/// Builds the command that zips the resolved path, optionally protected by a
/// password prompt (the `e` flag; no password ever stands in the command
/// text).
pub fn zip_path(metadata: &FileMetadata, with_password: bool) -> (r: Result<
    String,
    OperationError,
>)
    ensures
        r matches Ok(c) && c@ == spec_zip_cmd(*metadata, with_password),
{
    let short_name = match metadata.to_short_name() {
        Ok(n) => n,
        Err(e) => {
            return Err(e);
        },
    };
    let destination_archive = get_clean_archive_name(short_name.as_str());
    let encryption: &str = match with_password {
        true => "zip -re ",
        false => "zip -r ",
    };
    let path_to_files = metadata.to_string_path();
    Ok(
        String::from_str(encryption).concat(destination_archive.as_str()).concat(".zip ").concat(
            path_to_files.as_str(),
        ),
    )
}

/// The command that tars a resolved path.
pub open spec fn spec_tar_cmd(m: FileMetadata) -> Seq<char> {
    "tar -cf "@ + spec_clean_archive_name(spec_short_name(m)) + ".tar "@ + spec_string_path(m)
}

/// Builds the command that tars the resolved path.
pub fn tar_path(metadata: &FileMetadata) -> (r: Result<String, OperationError>)
    ensures
        r matches Ok(c) && c@ == spec_tar_cmd(*metadata),
{
    let short_name = match metadata.to_short_name() {
        Ok(n) => n,
        Err(e) => {
            return Err(e);
        },
    };
    let destination_archive = get_clean_archive_name(short_name.as_str());
    let path = metadata.to_string_path();
    Ok(
        String::from_str("tar -cf ").concat(destination_archive.as_str()).concat(".tar ").concat(
            path.as_str(),
        ),
    )
}

/// The command that appends `files` to the archive at `archive`: the zip
/// form when the archive's extension is `.zip`, and the tar append form for
/// every other extension.
pub open spec fn spec_append_cmd(archive: Seq<char>, files: Seq<char>) -> Seq<char> {
    if spec_extension(archive) == ".zip"@ {
        "zip -ur "@ + archive + " "@ + files
    } else {
        "tar -rv --append --file="@ + archive + " "@ + files
    }
}

/// Builds the command that appends the files at `files_path` to the archive
/// at `archive_path`, branching on the archive's own extension. Every
/// non-zip extension falls back to the tar append form.
pub fn add_to_exising_archive(archive_path: &str, files_path: &str) -> (r: Result<
    String,
    &'static str,
>)
    ensures
        archive_path@.contains('.') ==> (r matches Ok(c) && c@ == spec_append_cmd(
            archive_path@,
            files_path@,
        )),
        !archive_path@.contains('.') ==> (r matches Err(m) && m@ == "No extension found."@),
{
    let ext = match find_file_extension(archive_path) {
        Ok(e) => e,
        Err(m) => {
            return Err(m);
        },
    };
    if str_eq_str(ext.as_str(), ".zip") {
        Ok(String::from_str("zip -ur ").concat(archive_path).concat(" ").concat(files_path))
    } else {
        Ok(
            String::from_str("tar -rv --append --file=").concat(archive_path).concat(" ").concat(
                files_path,
            ),
        )
    }
}

/// A path with every trailing `/*` removed: the directory that bulk
/// discovery enumerates.
pub open spec fn spec_strip_wildcard_suffix(s: Seq<char>) -> Seq<char>
    decreases s.len(),
{
    if s.len() >= 2 && s.skip(s.len() - 2) == "/*"@ {
        spec_strip_wildcard_suffix(s.take(s.len() - 2))
    } else {
        s
    }
}

/// Removes every trailing `/*` from `path`: the whole-directory selector a
/// resolved directory path carries is dropped before the directory is
/// enumerated.
pub fn strip_wildcard_suffix(path: String) -> (r: String)
    ensures
        r@ == spec_strip_wildcard_suffix(path@),
{
    let mut s: String = path;
    loop
        invariant
            spec_strip_wildcard_suffix(s@) == spec_strip_wildcard_suffix(path@),
        ensures
            spec_strip_wildcard_suffix(s@) == spec_strip_wildcard_suffix(path@),
            !(s@.len() >= 2 && s@.skip(s@.len() - 2) == "/*"@),
        decreases s@.len(),
    {
        let len: usize = s.as_str().unicode_len();
        if len < 2 {
            proof {
                reveal_strlit("/*");
            }
            break;
        }
        if s.as_str().get_char(len - 2) == '/' && s.as_str().get_char(len - 1) == '*' {
            proof {
                reveal_strlit("/*");
                assert(s@.skip(len - 2) =~= "/*"@);
            }
            let stripped = s.as_str().substring_char(0, len - 2);
            s = stripped.to_owned();
        } else {
            proof {
                reveal_strlit("/*");
                if s@.skip(len - 2) == "/*"@ {
                    assert(s@[len - 2] == "/*"@[0] && s@[len - 1] == "/*"@[1]);
                }
            }
            break;
        }
    }
    s
}

/// Whether a directory entry is selected by bulk discovery: it has an
/// extension, and that extension is a recognized archive suffix.
pub open spec fn spec_entry_is_archive(entry: Seq<char>) -> bool {
    entry.contains('.') && is_recognized_format(spec_extension(entry))
}

/// The extraction command for one discovered entry of `dir`.
pub open spec fn spec_extract_one(dir: Seq<char>, entry: Seq<char>) -> Seq<char> {
    spec_unpack_cmd(dir + "/"@ + entry)
}

/// The composite bulk-extraction command: one extraction per recognized
/// archive among `entries`, in order, joined by ` && `. Empty when no entry
/// is a recognized archive.
pub open spec fn spec_bulk_cmd(dir: Seq<char>, entries: Seq<Seq<char>>) -> Seq<char>
    decreases entries.len(),
{
    if entries.len() == 0 {
        Seq::empty()
    } else {
        let rest = spec_bulk_cmd(dir, entries.drop_last());
        let entry = entries.last();
        if spec_entry_is_archive(entry) {
            if rest.len() == 0 {
                spec_extract_one(dir, entry)
            } else {
                rest + " && "@ + spec_extract_one(dir, entry)
            }
        } else {
            rest
        }
    }
}

/// Builds the composite command that extracts every recognized archive among
/// the immediate `entries` of the resolved directory, joined by ` && ` so
/// the sequence stops at the first failing extraction. Zero recognized
/// archives yield the empty command, not an error.
///
/// `entries` is the directory listing of the resolved path (after its
/// trailing `/*` selector, if any, is stripped), in the order the filesystem
/// returned it; listing the directory is the caller's business.
pub fn unpack_all_in_path(metadata: &FileMetadata, entries: &Vec<String>) -> (r: Result<
    String,
    OperationError,
>)
    ensures
        r matches Ok(c) && c@ == spec_bulk_cmd(
            spec_strip_wildcard_suffix(spec_string_path(*metadata)),
            entries.deep_view(),
        ),
{
    let path = strip_wildcard_suffix(metadata.to_string_path());
    let ghost dir = spec_strip_wildcard_suffix(spec_string_path(*metadata));
    let mut commands: String = String::new();
    let mut idx: usize = 0;
    while idx < entries.len()
        invariant
            0 <= idx <= entries.len(),
            path@ == dir,
            entries.deep_view().len() == entries@.len(),
            commands@ == spec_bulk_cmd(dir, entries.deep_view().take(idx as int)),
        decreases entries.len() - idx,
    {
        let file: &String = &entries[idx];
        assert(entries.deep_view()[idx as int] == file@);
        let keep: bool = match find_file_extension(file.as_str()) {
            Ok(ext) => is_valid_archive_format(ext.as_str()),
            Err(_) => false,
        };
        assert(keep == spec_entry_is_archive(file@));
        if keep {
            let full = path.clone().concat("/").concat(file.as_str());
            let cmd = match unpack_path(full.as_str()) {
                Ok(c) => c,
                Err(e) => {
                    return Err(e);
                },
            };
            if commands.as_str().unicode_len() == 0 {
                commands = cmd;
            } else {
                commands = commands.concat(" && ").concat(cmd.as_str());
            }
        }
        idx = idx + 1;
        proof {
            assert(entries.deep_view().take(idx as int).drop_last() =~= entries.deep_view().take(
                idx - 1,
            ));
            assert(entries.deep_view().take(idx as int).last() == file@);
        }
    }
    proof {
        assert(entries.deep_view().take(entries@.len() as int) =~= entries.deep_view());
    }
    Ok(commands)
}

/// Extraction always goes through a directory's wildcard-expanded path: with
/// no wildcard the command selects the whole directory through `/*`, and
/// with a wildcard suffix it selects exactly that suffix.
pub proof fn lemma_extract_from_directory(m: FileMetadata)
    requires
        m.is_directory,
    ensures
        m.wildcard is None ==> spec_unpack_cmd(spec_string_path(m)) == "tar -xvf "@ + m.path@
            + "/*"@,
        m.wildcard matches Some(w) ==> spec_unpack_cmd(spec_string_path(m)) == "tar -xvf "@
            + m.path@ + "/"@ + w@,
{
    match m.wildcard {
        Option::None => {
            assert(spec_unpack_cmd(spec_string_path(m)) =~= "tar -xvf "@ + m.path@ + "/*"@);
        },
        Option::Some(w) => {
            assert(spec_unpack_cmd(spec_string_path(m)) =~= "tar -xvf "@ + m.path@ + "/"@ + w@);
        },
    }
}

/// A password-protected zip command differs from the plain one only in its
/// flag, `-re` in place of `-r`; the archive name and target path after the
/// flag are the same.
pub proof fn lemma_zip_password_flag(m: FileMetadata)
    ensures
        spec_zip_cmd(m, false) == "zip -r "@ + spec_zip_cmd_tail(m),
        spec_zip_cmd(m, true) == "zip -re "@ + spec_zip_cmd_tail(m),
{
}

/// For a whole directory, the plain zip command is exactly
/// `zip -r <segment>_archive.zip <dir>/*`, where `<segment>` is the
/// directory's final path segment with its dots replaced.
pub proof fn lemma_zip_directory(m: FileMetadata)
    requires
        m.is_directory,
        m.wildcard is None,
    ensures
        spec_zip_cmd(m, false) == "zip -r "@ + spec_clean_archive_name(
            crate::file_metadata::spec_last_segment(m.path@),
        ) + ".zip "@ + m.path@ + "/*"@,
{
    assert(spec_zip_cmd(m, false) =~= "zip -r "@ + spec_clean_archive_name(
        crate::file_metadata::spec_last_segment(m.path@),
    ) + ".zip "@ + m.path@ + "/*"@);
}

/// Bulk discovery over entries none of which is a recognized archive yields
/// the empty command.
pub proof fn lemma_bulk_cmd_no_archives(dir: Seq<char>, entries: Seq<Seq<char>>)
    requires
        forall|i: int| 0 <= i < entries.len() ==> !spec_entry_is_archive(entries[i]),
    ensures
        spec_bulk_cmd(dir, entries) == Seq::<char>::empty(),
    decreases entries.len(),
{
    if entries.len() > 0 {
        assert(forall|i: int| 0 <= i < entries.drop_last().len() ==> entries.drop_last()[i]
            == entries[i]);
        lemma_bulk_cmd_no_archives(dir, entries.drop_last());
    }
}

/// A path that ends in `.zip` has extension `.zip`, so appending to it uses
/// the zip form of the command.
pub proof fn lemma_append_to_zip(archive: Seq<char>, files: Seq<char>)
    requires
        archive.len() >= 4,
        archive.skip(archive.len() - 4) == ".zip"@,
    ensures
        spec_append_cmd(archive, files) == "zip -ur "@ + archive + " "@ + files,
{
    reveal_strlit(".zip");
    assert(archive[archive.len() - 4] == ".zip"@[0]);
    assert(archive[archive.len() - 3] == ".zip"@[1]);
    assert(archive[archive.len() - 2] == ".zip"@[2]);
    assert(archive[archive.len() - 1] == ".zip"@[3]);
    lemma_last_index_of_unique(archive, '.', archive.len() - 4);
    assert(spec_extension(archive) =~= ".zip"@);
}

/// A path whose extension is anything but `.zip` is appended to through the
/// tar append form of the command.
pub proof fn lemma_append_other_format(archive: Seq<char>, files: Seq<char>)
    requires
        spec_extension(archive) != ".zip"@,
    ensures
        spec_append_cmd(archive, files) == "tar -rv --append --file="@ + archive + " "@ + files,
{
}

} // verus!
