//! Construction of the platform's default executable search paths.
//!
//! Reading environment variables is an external collaborator's work; the
//! logic here is how a system root resolves to the well-known tool
//! directories, and how the executable-extension list is matched.

use vstd::prelude::*;
use vstd::string::{StrSliceExecFns, StringExecFns};
use crate::strutil::chars_eq_ignore_ascii_case;
use crate::strutil::str_eq_ignore_ascii_case;

verus! {

/// The system tools directory under a system root.
pub open spec fn system32_of(root: Seq<char>) -> Seq<char> {
    root + "\\System32"@
}

/// Resolves the system tools directory under the given system root, when
/// one is known.
pub fn system32_path(system_root: Option<String>) -> (r: Option<String>)
    ensures
        system_root matches Some(root) ==> (r matches Some(p) && p@ == system32_of(root@)),
        system_root is None ==> r is None,
{
    match system_root {
        Some(root) => Some(root.concat("\\System32")),
        None => None,
    }
}

/// Returns the paths where standard utilities are typically installed: the
/// system tools directory, when a system root is known.
pub fn get_default_standard_utils_paths(system_root: Option<String>) -> (r: Vec<String>)
    ensures
        system_root matches Some(root) ==> (r@.len() == 1 && r@[0]@ == system32_of(root@)),
        system_root is None ==> r@.len() == 0,
{
    let mut paths: Vec<String> = Vec::new();
    match system32_path(system_root) {
        Some(p) => {
            paths.push(p);
        },
        None => {},
    }
    paths
}

/// Returns the default executable search paths: under a known system root,
/// the system tools directory, its management and scripting subdirectories,
/// and the root itself; with no system root, whatever the environment's own
/// path variable listed.
pub fn get_default_executable_search_paths(
    system_root: Option<String>,
    env_paths: Vec<String>,
) -> (r: Vec<String>)
    ensures
        system_root matches Some(root) ==> (r@.len() == 4 && r@[0]@ == system32_of(root@)
            && r@[1]@ == system32_of(root@) + "\\Wbem"@ && r@[2]@ == system32_of(root@)
            + "\\WindowsPowerShell\\v1.0"@ && r@[3]@ == root@),
        system_root is None ==> r@ == env_paths@,
{
    match system_root {
        Some(root) => {
            let system32 = root.clone().concat("\\System32");
            let mut paths: Vec<String> = Vec::new();
            paths.push(system32.clone());
            paths.push(system32.clone().concat("\\Wbem"));
            paths.push(system32.concat("\\WindowsPowerShell\\v1.0"));
            paths.push(root);
            proof {
                assert(system32_of(root@) + "\\Wbem"@ =~= root@ + "\\System32"@ + "\\Wbem"@);
                assert(system32_of(root@) + "\\WindowsPowerShell\\v1.0"@ =~= root@ + "\\System32"@
                    + "\\WindowsPowerShell\\v1.0"@);
            }
            paths
        },
        None => env_paths,
    }
}

/// The pieces of `s` between its semicolons: one piece per gap, so a string
/// without semicolons is one piece, and every semicolon ends a piece.
pub open spec fn split_semis(s: Seq<char>) -> Seq<Seq<char>>
    decreases s.len(),
{
    if s.len() == 0 {
        seq![Seq::<char>::empty()]
    } else if s[s.len() - 1] == ';' {
        split_semis(s.drop_last()).push(Seq::<char>::empty())
    } else {
        let rest = split_semis(s.drop_last());
        rest.update(rest.len() - 1, rest.last().push(s[s.len() - 1]))
    }
}

/// How one semicolon-separated piece normalizes to an extension: trimmed of
/// surrounding ASCII whitespace, dropped when nothing is left, and given a
/// leading dot when it lacks one.
pub open spec fn normalized_ext(piece: Seq<char>) -> Option<Seq<char>> {
    let t = crate::strutil::trim_spec(piece);
    if t.len() == 0 {
        None
    } else if t[0] == '.' {
        Some(t)
    } else {
        Some(seq!['.'] + t)
    }
}

/// The extensions that a sequence of pieces normalizes to, dropped pieces
/// left out, order kept.
pub open spec fn normalized_exts(pieces: Seq<Seq<char>>) -> Seq<Seq<char>>
    decreases pieces.len(),
{
    if pieces.len() == 0 {
        Seq::empty()
    } else {
        let rest = normalized_exts(pieces.drop_last());
        match normalized_ext(pieces.last()) {
            Some(e) => rest.push(e),
            None => rest,
        }
    }
}

/// The executable extensions assumed when the environment names none.
pub open spec fn fallback_exts() -> Seq<Seq<char>> {
    seq![".COM"@, ".EXE"@, ".BAT"@, ".CMD"@]
}

/// Returns the executable extensions assumed when the environment names
/// none.
pub fn fallback_executable_extensions() -> (r: Vec<String>)
    ensures
        r.deep_view() == fallback_exts(),
{
    let mut v: Vec<String> = Vec::new();
    v.push(".COM".to_owned());
    v.push(".EXE".to_owned());
    v.push(".BAT".to_owned());
    v.push(".CMD".to_owned());
    proof {
        assert(v.deep_view() =~= fallback_exts());
    }
    v
}

fn split_semis_exec(s: &str) -> (r: Vec<String>)
    ensures
        r.deep_view() == split_semis(s@),
{
    let len = s.unicode_len();
    let mut pieces: Vec<String> = Vec::new();
    let mut current = String::new();
    let mut i: usize = 0;
    proof {
        assert(s@.subrange(0, 0) =~= Seq::<char>::empty());
        assert(pieces.deep_view().push(current@) =~= split_semis(s@.subrange(0, 0)));
    }
    while i < len
        invariant
            len == s@.len(),
            0 <= i <= len,
            pieces.deep_view().push(current@) == split_semis(s@.subrange(0, i as int)),
        decreases len - i,
    {
        let ghost prefix = s@.subrange(0, i as int);
        let ghost next_prefix = s@.subrange(0, i as int + 1);
        proof {
            assert(next_prefix.drop_last() =~= prefix);
            assert(next_prefix.last() == s@[i as int]);
        }
        let c = s.get_char(i);
        if c == ';' {
            let ghost old_pieces = pieces.deep_view();
            let ghost old_current = current@;
            pieces.push(current);
            current = String::new();
            proof {
                assert(pieces.deep_view() =~= old_pieces.push(old_current));
                assert(split_semis(next_prefix) == split_semis(prefix).push(
                    Seq::<char>::empty(),
                ));
                assert(pieces.deep_view().push(current@) =~= split_semis(prefix).push(
                    Seq::<char>::empty(),
                ));
            }
        } else {
            let ghost old_current = current@;
            crate::strutil::push_char(&mut current, c);
            proof {
                let rest = split_semis(prefix);
                assert(rest == pieces.deep_view().push(old_current));
                assert(rest.len() == pieces.deep_view().len() + 1);
                assert(rest.last() == old_current);
                assert(split_semis(next_prefix) == rest.update(
                    rest.len() - 1,
                    rest.last().push(s@[i as int]),
                ));
                assert(pieces.deep_view().push(current@) =~= rest.update(
                    rest.len() - 1,
                    old_current.push(s@[i as int]),
                ));
            }
        }
        i = i + 1;
    }
    proof {
        assert(s@.subrange(0, len as int) =~= s@);
    }
    pieces.push(current);
    pieces
}

fn normalized_ext_exec(piece: &str) -> (r: Option<String>)
    ensures
        normalized_ext(piece@) matches Some(e) ==> (r matches Some(t) && t@ == e),
        normalized_ext(piece@) is None ==> r is None,
{
    let t = crate::strutil::trim_str(piece);
    let tlen = t.as_str().unicode_len();
    if tlen == 0 {
        None
    } else if t.as_str().get_char(0) == '.' {
        Some(t)
    } else {
        let mut dotted = ".".to_owned();
        dotted.append(t.as_str());
        proof {
            reveal_strlit(".");
            assert(dotted@ =~= seq!['.'] + crate::strutil::trim_spec(piece@));
        }
        Some(dotted)
    }
}

/// Parses the environment's executable-extension list: the value splits on
/// semicolons, each piece is trimmed and given a leading dot when it lacks
/// one, empty pieces are dropped, and an absent or effectively empty value
/// falls back to the well-known four extensions.
pub fn parse_executable_extensions(pathext: Option<String>) -> (r: Vec<String>)
    ensures
        pathext is None ==> r.deep_view() == fallback_exts(),
        pathext matches Some(v) ==> (normalized_exts(split_semis(v@)).len() == 0
            ==> r.deep_view() == fallback_exts()),
        pathext matches Some(v) ==> (normalized_exts(split_semis(v@)).len() > 0
            ==> r.deep_view() == normalized_exts(split_semis(v@))),
{
    let value = match pathext {
        Some(v) => v,
        None => {
            return fallback_executable_extensions();
        },
    };
    let pieces = split_semis_exec(value.as_str());
    let n = pieces.len();
    let mut exts: Vec<String> = Vec::new();
    let mut i: usize = 0;
    proof {
        assert(pieces.deep_view().subrange(0, 0) =~= Seq::<Seq<char>>::empty());
        assert(exts.deep_view() =~= normalized_exts(pieces.deep_view().subrange(0, 0)));
    }
    while i < n
        invariant
            n == pieces@.len(),
            n == pieces.deep_view().len(),
            0 <= i <= n,
            pieces.deep_view() == split_semis(value@),
            exts.deep_view() == normalized_exts(pieces.deep_view().subrange(0, i as int)),
        decreases n - i,
    {
        let ghost prefix = pieces.deep_view().subrange(0, i as int);
        let ghost next_prefix = pieces.deep_view().subrange(0, i as int + 1);
        proof {
            assert(next_prefix.drop_last() =~= prefix);
            assert(next_prefix.last() == pieces.deep_view()[i as int]);
            assert(pieces.deep_view()[i as int] == pieces@[i as int]@);
        }
        let ghost old_exts = exts.deep_view();
        match normalized_ext_exec(pieces[i].as_str()) {
            Some(e) => {
                exts.push(e);
                proof {
                    assert(exts.deep_view() =~= old_exts.push(e@));
                }
            },
            None => {},
        }
        proof {
            assert(exts.deep_view() =~= normalized_exts(next_prefix));
        }
        i = i + 1;
    }
    proof {
        assert(pieces.deep_view().subrange(0, n as int) =~= pieces.deep_view());
    }
    if exts.len() == 0 {
        fallback_executable_extensions()
    } else {
        exts
    }
}

/// Whether a file extension (with its leading dot) is one of the known
/// executable extensions, ignoring ASCII case.
pub fn extension_is_executable(dotted_ext: &str, known: &Vec<String>) -> (r: bool)
    ensures
        r == exists|i: int|
            0 <= i < known@.len() && chars_eq_ignore_ascii_case(
                #[trigger] known@[i]@,
                dotted_ext@,
            ),
{
    let n = known.len();
    let mut i: usize = 0;
    while i < n
        invariant
            n == known@.len(),
            0 <= i <= n,
            forall|k: int|
                0 <= k < i ==> !chars_eq_ignore_ascii_case(#[trigger] known@[k]@, dotted_ext@),
        decreases n - i,
    {
        if str_eq_ignore_ascii_case(known[i].as_str(), dotted_ext) {
            proof {
                assert(chars_eq_ignore_ascii_case(known@[i as int]@, dotted_ext@));
            }
            return true;
        }
        i = i + 1;
    }
    false
}

} // verus!
