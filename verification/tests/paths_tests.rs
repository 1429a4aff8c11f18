use pi_natives::error::Error;
use pi_natives::shellpath::{append_path_entry, normalize_path_text, path_list_contains};
use pi_natives::syspaths::{
    extension_is_executable, fallback_executable_extensions, get_default_executable_search_paths,
    get_default_standard_utils_paths, parse_executable_extensions, system32_path,
};
use pi_natives::users::{
    get_all_groups, get_all_users, get_current_gid, get_current_uid, get_effective_gid,
    get_effective_uid, get_user_group_ids,
};

#[test]
fn system32_path_joins_the_root() {
    let r = system32_path(Some("C:\\Windows".to_string()));
    assert_eq!(r.as_deref(), Some("C:\\Windows\\System32"));
    assert!(system32_path(None).is_none());
}

#[test]
fn standard_utils_paths_come_from_the_system_root() {
    let paths = get_default_standard_utils_paths(Some("C:\\Windows".to_string()));
    assert_eq!(paths, vec!["C:\\Windows\\System32".to_string()]);
    assert!(get_default_standard_utils_paths(None).is_empty());
}

#[test]
fn executable_search_paths_under_a_system_root() {
    let paths = get_default_executable_search_paths(Some("C:\\Windows".to_string()), Vec::new());
    assert_eq!(
        paths,
        vec![
            "C:\\Windows\\System32".to_string(),
            "C:\\Windows\\System32\\Wbem".to_string(),
            "C:\\Windows\\System32\\WindowsPowerShell\\v1.0".to_string(),
            "C:\\Windows".to_string(),
        ]
    );
}

#[test]
fn executable_search_paths_fall_back_to_the_environment() {
    let env = vec!["/usr/bin".to_string(), "/bin".to_string()];
    let paths = get_default_executable_search_paths(None, env.clone());
    assert_eq!(paths, env);
}

#[test]
fn extension_list_parses_and_normalizes() {
    let parsed = parse_executable_extensions(Some("COM;.EXE;; .bat ".to_string()));
    assert_eq!(
        parsed,
        vec![".COM".to_string(), ".EXE".to_string(), ".bat".to_string()]
    );
}

#[test]
fn extension_list_falls_back_when_empty() {
    let fallback = vec![
        ".COM".to_string(),
        ".EXE".to_string(),
        ".BAT".to_string(),
        ".CMD".to_string(),
    ];
    assert_eq!(parse_executable_extensions(None), fallback);
    assert_eq!(parse_executable_extensions(Some(String::new())), fallback);
    assert_eq!(parse_executable_extensions(Some(";; ;".to_string())), fallback);
    assert_eq!(fallback_executable_extensions(), fallback);
}

#[test]
fn extension_matching_ignores_case() {
    let known = fallback_executable_extensions();
    assert!(extension_is_executable(".exe", &known));
    assert!(extension_is_executable(".CmD", &known));
    assert!(!extension_is_executable(".sh", &known));
    assert!(!extension_is_executable("exe", &known));
}

#[test]
fn normalize_path_text_trims_space_and_quotes() {
    assert_eq!(normalize_path_text("  \"C:\\Git\\usr\\bin\"  "), "C:\\Git\\usr\\bin");
    assert_eq!(normalize_path_text("plain"), "plain");
    assert_eq!(normalize_path_text("  \"\"  "), "");
}

#[test]
fn path_list_membership_ignores_case_and_empty_entries() {
    let segments = vec![
        "C:\\Windows".to_string(),
        String::new(),
        "C:\\Git\\usr\\bin".to_string(),
    ];
    assert!(path_list_contains(&segments, "c:\\git\\USR\\bin"));
    assert!(!path_list_contains(&segments, "C:\\Other"));
    assert!(!path_list_contains(&segments, ""));
}

#[test]
fn append_path_entry_inserts_the_separator_when_needed() {
    assert_eq!(append_path_entry("", "C:\\new"), "C:\\new");
    assert_eq!(append_path_entry("C:\\a;C:\\b", "C:\\new"), "C:\\a;C:\\b;C:\\new");
    assert_eq!(append_path_entry("C:\\a;", "C:\\new"), "C:\\a;C:\\new");
}

#[test]
fn identity_queries_degrade_as_documented() {
    assert!(matches!(
        get_current_uid(),
        Err(Error::NotSupportedOnThisPlatform(op)) if op == "getting current uid"
    ));
    assert!(matches!(
        get_current_gid(),
        Err(Error::NotSupportedOnThisPlatform(op)) if op == "getting current gid"
    ));
    assert!(matches!(
        get_effective_uid(),
        Err(Error::NotSupportedOnThisPlatform(op)) if op == "getting effective uid"
    ));
    assert!(matches!(
        get_effective_gid(),
        Err(Error::NotSupportedOnThisPlatform(op)) if op == "getting effective gid"
    ));
    assert!(matches!(get_user_group_ids(), Ok(v) if v.is_empty()));
    assert!(matches!(get_all_users(), Ok(v) if v.is_empty()));
    assert!(matches!(get_all_groups(), Ok(v) if v.is_empty()));
}
