use pi_natives::findcore::{
    build_glob_pattern, contains_component, normalize_file_type, resolve_find_options,
    should_skip_path, type_filter_accepts, FindOptions,
};
use pi_natives::strutil::{str_contains_str, str_eq, str_eq_ignore_ascii_case, trim_char_str,
    trim_str};

fn options(pattern: &str) -> FindOptions {
    FindOptions {
        pattern: pattern.to_string(),
        path: ".".to_string(),
        file_type: None,
        hidden: None,
        max_results: None,
        gitignore: None,
        sort_by_mtime: None,
    }
}

#[test]
fn bare_glob_is_made_recursive() {
    assert_eq!(build_glob_pattern("*.rs"), "**/*.rs");
    assert_eq!(build_glob_pattern("name"), "**/name");
}

#[test]
fn glob_with_directory_part_is_kept() {
    assert_eq!(build_glob_pattern("src/*.rs"), "src/*.rs");
    assert_eq!(build_glob_pattern("**/*.rs"), "**/*.rs");
}

#[test]
fn backslash_separators_become_slashes() {
    assert_eq!(build_glob_pattern("src\\lib.rs"), "src/lib.rs");
    assert_eq!(build_glob_pattern("a\\b\\c"), "a/b/c");
}

#[test]
fn skip_rules_cover_version_control_and_dependencies() {
    let git = vec!["a".to_string(), ".git".to_string(), "b".to_string()];
    let deps = vec!["node_modules".to_string(), "x".to_string()];
    let plain = vec!["src".to_string(), "lib.rs".to_string()];
    assert!(should_skip_path(&git, false));
    assert!(should_skip_path(&git, true));
    assert!(should_skip_path(&deps, false));
    assert!(!should_skip_path(&deps, true));
    assert!(!should_skip_path(&plain, false));
    assert!(contains_component(&git, ".git"));
    assert!(!contains_component(&plain, ".git"));
}

#[test]
fn file_type_filter_normalizes_and_matches() {
    assert_eq!(normalize_file_type(None), None);
    assert_eq!(normalize_file_type(Some("  ".to_string())), None);
    assert_eq!(normalize_file_type(Some(" dir ".to_string())), Some("dir".to_string()));
    assert!(type_filter_accepts(&None, "file"));
    assert!(type_filter_accepts(&Some("file".to_string()), "file"));
    assert!(!type_filter_accepts(&Some("dir".to_string()), "file"));
}

#[test]
fn find_options_resolve_their_defaults() {
    let r = resolve_find_options(options("  "));
    assert_eq!(r.pattern, "*");
    assert!(!r.include_hidden);
    assert_eq!(r.max_results, usize::MAX);
    assert!(r.use_gitignore);
    assert!(!r.mentions_node_modules);
    assert!(!r.sort_by_mtime);
    assert_eq!(r.file_type_filter, None);
}

#[test]
fn find_options_resolve_explicit_values() {
    let mut o = options(" node_modules/*.js ");
    o.file_type = Some("file".to_string());
    o.hidden = Some(true);
    o.max_results = Some(25);
    o.gitignore = Some(false);
    o.sort_by_mtime = Some(true);
    let r = resolve_find_options(o);
    assert_eq!(r.pattern, "node_modules/*.js");
    assert!(r.include_hidden);
    assert_eq!(r.max_results, 25);
    assert!(!r.use_gitignore);
    assert!(r.mentions_node_modules);
    assert!(r.sort_by_mtime);
    assert_eq!(r.file_type_filter, Some("file".to_string()));
}

#[test]
fn string_helpers_behave_exactly() {
    assert_eq!(trim_str("  a b \t"), "a b");
    assert_eq!(trim_str("   "), "");
    assert_eq!(trim_char_str("\"\"quoted\"", '"'), "quoted");
    assert!(str_contains_str("path/node_modules/x", "node_modules"));
    assert!(!str_contains_str("path/nodemodules/x", "node_modules"));
    assert!(str_contains_str("anything", ""));
    assert!(str_eq("same", "same"));
    assert!(!str_eq("same", "Same"));
    assert!(str_eq_ignore_ascii_case("same", "Same"));
    assert!(!str_eq_ignore_ascii_case("same", "sam"));
}
