//! Decision logic for extending the shell's search-path variable.
//!
//! Locating candidate directories (registry, lookup commands) and
//! canonicalizing paths against the filesystem are external collaborators'
//! work; what lives here is the pure logic: textual normalization of a path
//! entry, case-insensitive membership in a path list, and how a new entry is
//! appended to the variable's value.

use vstd::prelude::*;
use vstd::string::{StrSliceExecFns, StringExecFns};
use crate::strutil::{chars_eq_ignore_ascii_case, str_eq_ignore_ascii_case, trim_char_spec,
    trim_char_str, trim_spec, trim_str};

verus! {

/// The textual normalization of a path entry: surrounding ASCII whitespace
/// removed, then surrounding double quotes removed.
pub open spec fn normalized_path_text(s: Seq<char>) -> Seq<char> {
    trim_char_spec(trim_spec(s), '"')
}

/// Normalizes the text of a path entry: trims surrounding ASCII whitespace,
/// then surrounding double quotes.
pub fn normalize_path_text(path: &str) -> (r: String)
    ensures
        r@ == normalized_path_text(path@),
{
    let trimmed = trim_str(path);
    trim_char_str(trimmed.as_str(), '"')
}

/// A non-empty segment of the list equals `entry` up to ASCII case.
pub open spec fn path_list_has_entry(segments: Seq<String>, entry: Seq<char>) -> bool {
    exists|i: int|
        0 <= i < segments.len() && #[trigger] segments[i]@.len() > 0 && chars_eq_ignore_ascii_case(
            segments[i]@,
            entry,
        )
}

/// Whether a path list already carries `entry`: an empty entry is never
/// carried, and comparison ignores ASCII case.  The caller hands in the
/// segments and the entry already normalized.
pub fn path_list_contains(segments: &Vec<String>, entry: &str) -> (r: bool)
    ensures
        entry@.len() == 0 ==> !r,
        entry@.len() > 0 ==> r == path_list_has_entry(segments@, entry@),
{
    if entry.unicode_len() == 0 {
        return false;
    }
    let n = segments.len();
    let mut i: usize = 0;
    while i < n
        invariant
            n == segments@.len(),
            0 <= i <= n,
            forall|k: int|
                0 <= k < i ==> !(#[trigger] segments@[k]@.len() > 0 && chars_eq_ignore_ascii_case(
                    segments@[k]@,
                    entry@,
                )),
        decreases n - i,
    {
        let segment = &segments[i];
        if segment.as_str().unicode_len() > 0 && str_eq_ignore_ascii_case(
            segment.as_str(),
            entry,
        ) {
            proof {
                assert(segments@[i as int]@.len() > 0 && chars_eq_ignore_ascii_case(
                    segments@[i as int]@,
                    entry@,
                ));
            }
            return true;
        }
        i = i + 1;
    }
    false
}

/// Appends an entry to a path variable's value, inserting the separator
/// exactly when the value is non-empty and does not already end with one.
pub fn append_path_entry(existing: &str, entry: &str) -> (r: String)
    ensures
        existing@.len() == 0 ==> r@ == entry@,
        existing@.len() > 0 && existing@[existing@.len() - 1] == ';' ==> r@ == existing@
            + entry@,
        existing@.len() > 0 && existing@[existing@.len() - 1] != ';' ==> r@ == existing@
            + seq![';'] + entry@,
{
    let len = existing.unicode_len();
    let mut out = existing.to_owned();
    if len > 0 && existing.get_char(len - 1) != ';' {
        crate::strutil::push_char(&mut out, ';');
        proof {
            assert(out@ =~= existing@ + seq![';']);
        }
    }
    out.append(entry);
    proof {
        if existing@.len() == 0 {
            assert(out@ =~= entry@);
        }
    }
    out
}

} // verus!
