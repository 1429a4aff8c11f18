//! Decision logic of the filesystem discovery operation.
//!
//! Walking the directory tree, querying metadata and streaming matches are
//! external collaborators' work; what lives here is the pure logic: how the
//! requested options resolve to defaults, how a glob pattern is normalized,
//! and which walked entries are skipped.

use vstd::prelude::*;
use vstd::string::{StrSliceExecFns, StringExecFns};
use crate::strutil::{contains_seq, str_contains_char, str_contains_str, str_eq, trim_spec,
    trim_str};

verus! {

/// Options for discovering files and directories.
pub struct FindOptions {
    /// Glob pattern to match.
    pub pattern: String,
    /// Directory to search.
    pub path: String,
    /// Filter by file type: "file", "dir", or "symlink".
    pub file_type: Option<String>,
    /// Include hidden files (absent means no).
    pub hidden: Option<bool>,
    /// Maximum number of results to return (absent means no limit).
    pub max_results: Option<u32>,
    /// Respect gitignore files (absent means yes).
    pub gitignore: Option<bool>,
    /// Sort results by modification time before applying the limit (absent
    /// means no).
    pub sort_by_mtime: Option<bool>,
}

/// The find options with every default resolved.
pub struct ResolvedFindOptions {
    /// The pattern to match: the requested one trimmed, or a single star
    /// when nothing was left.
    pub pattern: String,
    /// The normalized file-type filter, if one was requested.
    pub file_type_filter: Option<String>,
    /// Whether hidden files are included.
    pub include_hidden: bool,
    /// The maximum number of results.
    pub max_results: usize,
    /// Whether gitignore files are respected.
    pub use_gitignore: bool,
    /// Whether the pattern itself mentions the dependencies directory, which
    /// suppresses the default skip of it.
    pub mentions_node_modules: bool,
    /// Whether results are sorted by modification time before the limit.
    pub sort_by_mtime: bool,
}

/// How a requested file-type filter normalizes: nothing stays nothing, a
/// value that trims to nothing becomes nothing, anything else is kept
/// trimmed.
pub open spec fn is_normalized_file_type(value: Option<String>, r: Option<String>) -> bool {
    match value {
        None => r is None,
        Some(v) => (trim_spec(v@).len() == 0 ==> r is None) && (trim_spec(v@).len() > 0 ==> (
        r matches Some(t) && t@ == trim_spec(v@))),
    }
}

/// Normalizes a requested file-type filter.
pub fn normalize_file_type(value: Option<String>) -> (r: Option<String>)
    ensures
        is_normalized_file_type(value, r),
{
    match value {
        None => None,
        Some(v) => {
            let t = trim_str(v.as_str());
            if t.as_str().unicode_len() == 0 {
                None
            } else {
                Some(t)
            }
        },
    }
}

/// Whether a match of the given resolved type passes the requested filter.
pub fn type_filter_accepts(filter: &Option<String>, file_type: &str) -> (r: bool)
    ensures
        r == (filter matches Some(f) ==> f@ == file_type@),
{
    match filter {
        None => true,
        Some(f) => str_eq(f.as_str(), file_type),
    }
}

/// `s` with every backslash separator turned into a forward slash.
pub open spec fn slashify(s: Seq<char>) -> Seq<char> {
    Seq::new(s.len(), |i: int| if s[i] == '\\' { '/' } else { s[i] })
}

/// Turns every backslash separator of a string into a forward slash.
pub fn slashify_str(s: &str) -> (r: String)
    ensures
        r@ == slashify(s@),
{
    let len = s.unicode_len();
    let mut out = String::new();
    let mut i: usize = 0;
    while i < len
        invariant
            len == s@.len(),
            0 <= i <= len,
            out@ == slashify(s@).subrange(0, i as int),
        decreases len - i,
    {
        let c = s.get_char(i);
        if c == '\\' {
            crate::strutil::push_char(&mut out, '/');
        } else {
            crate::strutil::push_char(&mut out, c);
        }
        proof {
            assert(out@ =~= slashify(s@).subrange(0, i as int + 1));
        }
        i = i + 1;
    }
    proof {
        assert(slashify(s@).subrange(0, len as int) =~= slashify(s@));
    }
    out
}

/// How a requested glob normalizes before compilation: backslash separators
/// become slashes; a pattern that names no directory part and does not
/// already recurse is made to match at any depth.
pub open spec fn build_glob_spec(glob: Seq<char>) -> Seq<char> {
    let n = if glob.contains('\\') {
        slashify(glob)
    } else {
        glob
    };
    if n.contains('/') || (n.len() >= 2 && n[0] == '*' && n[1] == '*') {
        n
    } else {
        "**/"@ + n
    }
}

/// Normalizes a requested glob before compilation.
pub fn build_glob_pattern(glob: &str) -> (r: String)
    ensures
        r@ == build_glob_spec(glob@),
{
    let normalized: String = if str_contains_char(glob, '\\') {
        slashify_str(glob)
    } else {
        glob.to_owned()
    };
    let len = normalized.as_str().unicode_len();
    let starts_recursive = len >= 2 && normalized.as_str().get_char(0) == '*'
        && normalized.as_str().get_char(1) == '*';
    if str_contains_char(normalized.as_str(), '/') || starts_recursive {
        normalized
    } else {
        let mut prefixed = "**/".to_owned();
        prefixed.append(normalized.as_str());
        prefixed
    }
}

/// Some path component is exactly `target`.
pub open spec fn has_component(components: Seq<String>, target: Seq<char>) -> bool {
    exists|i: int| 0 <= i < components.len() && #[trigger] components[i]@ == target
}

/// Whether some component of a path is exactly `target`.
pub fn contains_component(components: &Vec<String>, target: &str) -> (r: bool)
    ensures
        r == has_component(components@, target@),
{
    let n = components.len();
    let mut i: usize = 0;
    while i < n
        invariant
            n == components@.len(),
            0 <= i <= n,
            forall|k: int| 0 <= k < i ==> #[trigger] components@[k]@ != target@,
        decreases n - i,
    {
        if str_eq(components[i].as_str(), target) {
            proof {
                assert(components@[i as int]@ == target@);
            }
            return true;
        }
        i = i + 1;
    }
    false
}

/// Whether a walked path is skipped outright: version-control bookkeeping
/// always is, and the dependencies directory is unless the pattern itself
/// mentions it.
pub fn should_skip_path(components: &Vec<String>, mentions_node_modules: bool) -> (r: bool)
    ensures
        r == (has_component(components@, ".git"@) || (!mentions_node_modules && has_component(
            components@,
            "node_modules"@,
        ))),
{
    if contains_component(components, ".git") {
        return true;
    }
    if !mentions_node_modules && contains_component(components, "node_modules") {
        return true;
    }
    false
}

/// Resolves every default of the requested find options: the pattern is
/// trimmed (a blank request matches everything), hidden files and
/// modification-time sorting are off unless requested, gitignore handling is
/// on unless declined, and an absent result limit means no limit.
pub fn resolve_find_options(options: FindOptions) -> (r: ResolvedFindOptions)
    ensures
        trim_spec(options.pattern@).len() == 0 ==> r.pattern@ == "*"@,
        trim_spec(options.pattern@).len() > 0 ==> r.pattern@ == trim_spec(options.pattern@),
        is_normalized_file_type(options.file_type, r.file_type_filter),
        r.include_hidden == (options.hidden matches Some(true)),
        options.max_results matches Some(v) ==> r.max_results == v as usize,
        options.max_results is None ==> r.max_results == usize::MAX,
        r.use_gitignore == !(options.gitignore matches Some(false)),
        r.mentions_node_modules == contains_seq(r.pattern@, "node_modules"@),
        r.sort_by_mtime == (options.sort_by_mtime matches Some(true)),
{
    let trimmed = trim_str(options.pattern.as_str());
    let pattern: String = if trimmed.as_str().unicode_len() == 0 {
        "*".to_owned()
    } else {
        trimmed
    };
    let mentions_node_modules = str_contains_str(pattern.as_str(), "node_modules");
    let file_type_filter = normalize_file_type(options.file_type);
    let include_hidden = match options.hidden {
        Some(b) => b,
        None => false,
    };
    let max_results: usize = match options.max_results {
        Some(v) => v as usize,
        None => usize::MAX,
    };
    let use_gitignore = match options.gitignore {
        Some(b) => b,
        None => true,
    };
    let sort_by_mtime = match options.sort_by_mtime {
        Some(b) => b,
        None => false,
    };
    ResolvedFindOptions {
        pattern,
        file_type_filter,
        include_hidden,
        max_results,
        use_gitignore,
        mentions_node_modules,
        sort_by_mtime,
    }
}

} // verus!
