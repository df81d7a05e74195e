//! Character-level helpers over path strings: locating the last occurrence of
//! a character, splitting a wildcarded path into its directory part, and
//! extracting a file extension.

use vstd::prelude::*;
use vstd::string::StrSliceExecFns;
use crate::error::OperationError;

verus! {

/// Largest index at which `c` occurs in `s`, or `-1` when it does not occur.
pub open spec fn last_index_of(s: Seq<char>, c: char) -> int
    decreases s.len(),
{
    if s.len() == 0 {
        -1
    } else if s[s.len() - 1] == c {
        s.len() - 1
    } else {
        last_index_of(s.drop_last(), c)
    }
}

/// Smallest index at which `c` occurs in `s`, or `-1` when it does not occur.
pub open spec fn first_index_of(s: Seq<char>, c: char) -> int
    decreases s.len(),
{
    if s.len() == 0 {
        -1
    } else if s[0] == c {
        0
    } else if first_index_of(s.drop_first(), c) == -1 {
        -1
    } else {
        first_index_of(s.drop_first(), c) + 1
    }
}

/// `last_index_of` is the largest index holding `c`, and is `-1` exactly when
/// `c` does not occur.
pub proof fn lemma_last_index_of(s: Seq<char>, c: char)
    ensures
        last_index_of(s, c) == -1 <==> !s.contains(c),
        -1 <= last_index_of(s, c) < s.len(),
        last_index_of(s, c) >= 0 ==> s[last_index_of(s, c)] == c,
        forall|j: int| last_index_of(s, c) < j < s.len() ==> s[j] != c,
    decreases s.len(),
{
    if s.len() == 0 {
        assert(!s.contains(c));
    } else if s[s.len() - 1] == c {
        assert(s.contains(c));
    } else {
        lemma_last_index_of(s.drop_last(), c);
        assert(forall|j: int| 0 <= j < s.len() - 1 ==> s[j] == s.drop_last()[j]);
        if s.drop_last().contains(c) {
            let i = choose|i: int| 0 <= i < s.drop_last().len() && s.drop_last()[i] == c;
            assert(s[i] == c);
        }
        if s.contains(c) {
            let i = choose|i: int| 0 <= i < s.len() && s[i] == c;
            assert(i < s.len() - 1);
            assert(s.drop_last().contains(c));
        }
    }
}

/// If `c` stands at `k` and nowhere later, then `k` is the last index.
pub proof fn lemma_last_index_of_unique(s: Seq<char>, c: char, k: int)
    requires
        0 <= k < s.len(),
        s[k] == c,
        forall|j: int| k < j < s.len() ==> s[j] != c,
    ensures
        last_index_of(s, c) == k,
    decreases s.len(),
{
    if k == s.len() - 1 {
    } else {
        assert(forall|j: int| 0 <= j < s.len() - 1 ==> s[j] == s.drop_last()[j]);
        lemma_last_index_of_unique(s.drop_last(), c, k);
    }
}

/// `first_index_of` is the smallest index holding `c`, and is `-1` exactly
/// when `c` does not occur.
pub proof fn lemma_first_index_of(s: Seq<char>, c: char)
    ensures
        first_index_of(s, c) == -1 <==> !s.contains(c),
        -1 <= first_index_of(s, c) < s.len(),
        first_index_of(s, c) >= 0 ==> s[first_index_of(s, c)] == c,
        forall|j: int| 0 <= j < first_index_of(s, c) ==> s[j] != c,
    decreases s.len(),
{
    if s.len() == 0 {
        assert(!s.contains(c));
    } else if s[0] == c {
        assert(s.contains(c));
    } else {
        lemma_first_index_of(s.drop_first(), c);
        assert(forall|j: int| 0 <= j < s.len() - 1 ==> s.drop_first()[j] == s[j + 1]);
        assert forall|j: int| 0 <= j < first_index_of(s, c) implies s[j] != c by {
            if j >= 1 {
                assert(s.drop_first()[j - 1] != c);
            }
        }
        if s.drop_first().contains(c) {
            let i = choose|i: int| 0 <= i < s.drop_first().len() && s.drop_first()[i] == c;
            assert(s[i + 1] == c);
            assert(s.contains(c));
        }
        if s.contains(c) {
            let i = choose|i: int| 0 <= i < s.len() && s[i] == c;
            assert(i >= 1);
            assert(s.drop_first()[i - 1] == c);
            assert(s.drop_first().contains(c));
        }
    }
}

/// Whether `c` occurs anywhere in `s`.
pub fn contains_char(s: &str, c: char) -> (r: bool)
    ensures
        r == s@.contains(c),
{
    let len: usize = s.unicode_len();
    let mut i: usize = 0;
    while i < len
        invariant
            0 <= i <= len,
            len == s@.len(),
            forall|j: int| 0 <= j < i ==> s@[j] != c,
        decreases len - i,
    {
        if s.get_char(i) == c {
            return true;
        }
        i = i + 1;
    }
    assert(!s@.contains(c)) by {
        if s@.contains(c) {
            let k = choose|k: int| 0 <= k < s@.len() && s@[k] == c;
            assert(s@[k] != c);
        }
    }
    false
}

/// Position of the last occurrence of `to_find` in `s`, in characters.
pub fn last_index_of_char(s: &str, to_find: char) -> (r: Option<usize>)
    ensures
        r matches Some(i) ==> i == last_index_of(s@, to_find),
        r is None ==> last_index_of(s@, to_find) == -1,
{
    let len: usize = s.unicode_len();
    let mut i: usize = len;
    while i > 0
        invariant
            0 <= i <= len,
            len == s@.len(),
            forall|j: int| i <= j < len ==> s@[j] != to_find,
        decreases i,
    {
        i = i - 1;
        if s.get_char(i) == to_find {
            proof {
                lemma_last_index_of_unique(s@, to_find, i as int);
            }
            return Some(i);
        }
    }
    proof {
        lemma_last_index_of(s@, to_find);
        if s@.contains(to_find) {
            let k = choose|k: int| 0 <= k < s@.len() && s@[k] == to_find;
            assert(s@[k] != to_find);
        }
    }
    None
}

/// Position of the first occurrence of `to_find` in `s`, in characters.
pub fn first_index_of_char(s: &str, to_find: char) -> (r: Option<usize>)
    ensures
        r matches Some(i) ==> i == first_index_of(s@, to_find),
        r is None ==> first_index_of(s@, to_find) == -1,
{
    let len: usize = s.unicode_len();
    let mut i: usize = 0;
    while i < len
        invariant
            0 <= i <= len,
            len == s@.len(),
            forall|j: int| 0 <= j < i ==> s@[j] != to_find,
        decreases len - i,
    {
        if s.get_char(i) == to_find {
            proof {
                lemma_first_index_of(s@, to_find);
            }
            return Some(i);
        }
        i = i + 1;
    }
    proof {
        lemma_first_index_of(s@, to_find);
        if s@.contains(to_find) {
            let k = choose|k: int| 0 <= k < s@.len() && s@[k] == to_find;
            assert(s@[k] != to_find);
        }
    }
    None
}

/// Whether two string slices hold the same characters.
pub fn str_eq_str(a: &str, b: &str) -> (r: bool)
    ensures
        r == (a@ == b@),
{
    let a_len: usize = a.unicode_len();
    let b_len: usize = b.unicode_len();
    if a_len != b_len {
        return false;
    }
    let mut i: usize = 0;
    while i < a_len
        invariant
            0 <= i <= a_len,
            a_len == a@.len(),
            a_len == b@.len(),
            forall|j: int| 0 <= j < i ==> a@[j] == b@[j],
        decreases a_len - i,
    {
        if a.get_char(i) != b.get_char(i) {
            return false;
        }
        i = i + 1;
    }
    assert(a@ =~= b@);
    true
}

/// Relies on String::push: it appends exactly the given character.
#[verifier::external_body]
pub fn push_char(s: &mut String, c: char)
    ensures
        final(s)@ == old(s)@.push(c),
{
    s.push(c);
}

/// The decimal digit `d` as a character.
pub open spec fn spec_digit_char(d: nat) -> char {
    if d == 0 {
        '0'
    } else if d == 1 {
        '1'
    } else if d == 2 {
        '2'
    } else if d == 3 {
        '3'
    } else if d == 4 {
        '4'
    } else if d == 5 {
        '5'
    } else if d == 6 {
        '6'
    } else if d == 7 {
        '7'
    } else if d == 8 {
        '8'
    } else {
        '9'
    }
}

/// The usual decimal notation of `n`: no sign, no leading zero except for
/// zero itself.
pub open spec fn spec_decimal(n: nat) -> Seq<char>
    decreases n,
{
    if n < 10 {
        seq![spec_digit_char(n)]
    } else {
        spec_decimal(n / 10).push(spec_digit_char(n % 10))
    }
}

/// The decimal digit `d` as a character.
fn digit_char_of(d: usize) -> (c: char)
    requires
        d < 10,
    ensures
        c == spec_digit_char(d as nat),
{
    if d == 0 {
        '0'
    } else if d == 1 {
        '1'
    } else if d == 2 {
        '2'
    } else if d == 3 {
        '3'
    } else if d == 4 {
        '4'
    } else if d == 5 {
        '5'
    } else if d == 6 {
        '6'
    } else if d == 7 {
        '7'
    } else if d == 8 {
        '8'
    } else {
        '9'
    }
}

/// Writes `n` in decimal notation.
pub fn decimal_string(n: usize) -> (r: String)
    ensures
        r@ == spec_decimal(n as nat),
    decreases n,
{
    if n < 10 {
        let mut s = String::new();
        push_char(&mut s, digit_char_of(n));
        s
    } else {
        let mut s = decimal_string(n / 10);
        push_char(&mut s, digit_char_of(n % 10));
        s
    }
}

/// The directory part of a wildcarded path: everything before the last
/// separator.
pub open spec fn spec_wildcard_dir(path: Seq<char>) -> Seq<char> {
    path.take(last_index_of(path, '/'))
}

/// The wildcard suffix of a wildcarded path: everything after the last
/// separator.
pub open spec fn spec_wildcard_suffix(path: Seq<char>) -> Seq<char> {
    path.skip(last_index_of(path, '/') + 1)
}

/// Splitting a path at its last separator recovers exactly the directory and
/// the final segment it was joined from, whatever the segment holds, as long
/// as the segment itself has no separator.
pub proof fn lemma_wildcard_split_roundtrip(dir: Seq<char>, segment: Seq<char>)
    requires
        !segment.contains('/'),
    ensures
        spec_wildcard_dir(dir + "/"@ + segment) == dir,
        spec_wildcard_suffix(dir + "/"@ + segment) == segment,
{
    reveal_strlit("/");
    let p = dir + "/"@ + segment;
    assert(p[dir.len() as int] == '/');
    assert forall|j: int| dir.len() < j < p.len() implies p[j] != '/' by {
        assert(p[j] == segment[j - dir.len() - 1]);
        if segment[j - dir.len() - 1] == '/' {
            assert(segment.contains('/'));
        }
    }
    lemma_last_index_of_unique(p, '/', dir.len() as int);
    assert(p.take(dir.len() as int) =~= dir);
    assert(p.skip(dir.len() + 1 as int) =~= segment);
}

/// Splits a wildcarded path at its last separator and returns the directory
/// part. The wildcard must stand in the final path segment: the call fails
/// with `InvalidWildcardIndex` when the last `*` precedes the last separator,
/// and with `CouldNotFindDirForFileWithWildcard` when there is no separator
/// at all.
pub fn find_dir_of_wildcard_files(path: &str) -> (r: Result<String, OperationError>)
    requires
        path@.contains('*'),
    ensures
        !path@.contains('/') ==> (r matches Err(e) && e matches
            OperationError::CouldNotFindDirForFileWithWildcard(p) && p@ == path@),
        path@.contains('/') && last_index_of(path@, '*') < last_index_of(path@, '/') ==> (
            r matches Err(e) && e is InvalidWildcardIndex),
        path@.contains('/') && last_index_of(path@, '*') > last_index_of(path@, '/') ==> (
            r matches Ok(d) && d@ == spec_wildcard_dir(path@)),
{
    proof {
        lemma_last_index_of(path@, '/');
        lemma_last_index_of(path@, '*');
    }
    match last_index_of_char(path, '/') {
        Some(slash_idx) => {
            let wildcard_idx = last_index_of_char(path, '*').unwrap();
            if wildcard_idx < slash_idx {
                return Err(OperationError::InvalidWildcardIndex);
            }
            assert(wildcard_idx != slash_idx) by {
                assert(path@[last_index_of(path@, '*')] == '*');
                assert(path@[last_index_of(path@, '/')] == '/');
            }
            let dir = path.substring_char(0, slash_idx);
            Ok(dir.to_owned())
        },
        None => Err(OperationError::CouldNotFindDirForFileWithWildcard(path.to_owned())),
    }
}

/// The trailing extension of a name: everything from the last dot on.
pub open spec fn spec_extension(name: Seq<char>) -> Seq<char> {
    name.skip(last_index_of(name, '.'))
}

/// Returns the substring from the last `.` (inclusive) to the end of `path`,
/// or an error when `path` holds no dot.
pub fn find_file_extension(path: &str) -> (r: Result<String, &'static str>)
    ensures
        path@.contains('.') ==> (r matches Ok(e) && e@ == spec_extension(path@)),
        !path@.contains('.') ==> (r matches Err(m) && m@ == "No extension found."@),
{
    proof {
        lemma_last_index_of(path@, '.');
    }
    match last_index_of_char(path, '.') {
        Some(idx) => {
            let len: usize = path.unicode_len();
            let ext = path.substring_char(idx, len);
            assert(ext@ =~= spec_extension(path@));
            Ok(ext.to_owned())
        },
        None => Err("No extension found."),
    }
}

} // verus!
