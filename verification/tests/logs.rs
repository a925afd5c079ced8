use deadlock_mod_manager::error::Error;
use deadlock_mod_manager::logs::{
    get_log_info, get_logs_for_ai, is_app_log_file, log_error, log_sources, LogFailure,
};
use deadlock_mod_manager::paths::DirEntryInfo;

fn entry(name: &str, is_file: bool, size: Option<u64>) -> DirEntryInfo {
    DirEntryInfo {
        name: name.to_string(),
        path: format!("/logs/{name}"),
        is_file,
        size,
        modified: None,
    }
}

#[test]
fn log_listing_filters_sorts_and_sums() {
    let entries = vec![
        entry("deadlock-mod-manager.log", true, Some(10)),
        entry("other.log", true, Some(99)),
        entry("deadlock-mod-manager.1.log", true, Some(5)),
        entry("deadlock-mod-manager.log.old", true, Some(7)),
        entry("deadlock-mod-manager-dir.log", false, Some(8)),
        entry("deadlock-mod-manager.2.log", true, None),
    ];
    let info = get_log_info("/logs".to_string(), entries);
    assert_eq!(info.log_dir, "/logs");
    let names: Vec<&str> = info.files.iter().map(|f| f.name.as_str()).collect();
    assert_eq!(names, vec!["deadlock-mod-manager.1.log", "deadlock-mod-manager.log"]);
    assert_eq!(info.files[0].path, "/logs/deadlock-mod-manager.1.log");
    assert_eq!(info.total_size, 15);
    assert!(is_app_log_file("deadlock-mod-manager.log"));
    assert!(!is_app_log_file("deadlock.log"));
}

#[test]
fn log_sources_select_parts() {
    assert_eq!(log_sources("dmm"), (true, false));
    assert_eq!(log_sources("crash"), (false, true));
    assert_eq!(log_sources("combined"), (true, true));
    assert_eq!(log_sources("other"), (false, false));
}

#[test]
fn excerpt_of_main_log_keeps_last_lines_that_fit() {
    let content = "first\nsecond\nthird\n".to_string();
    // Header is 33 bytes; 20 bytes remain; "second\nthird\n" is 13, adding "first\n" makes 19.
    let out = get_logs_for_ai(53, "dmm", Some(content.clone()), None).unwrap();
    assert_eq!(out, "=== DEADLOCK MOD MANAGER LOG ===\nfirst\nsecond\nthird\n\n");
    let out = get_logs_for_ai(45, "dmm", Some(content.clone()), None).unwrap();
    assert_eq!(out, "=== DEADLOCK MOD MANAGER LOG ===\nthird\n\n");
    let out = get_logs_for_ai(10, "dmm", Some(content), None).unwrap();
    assert_eq!(out, "=== DEADLOCK MOD MANAGER LOG ===\n\n");
}

#[test]
fn excerpt_combines_log_and_crash_dump() {
    let content = "a\nbb\n".to_string();
    let crash = Some(("deadlock.mdmp".to_string(), "0123456789".to_string()));
    // 33 header bytes leave 27; half of it, 13, for log lines: "a\nbb\n" (5) fits.
    // 22 remain, less the 35-byte crash header, leaves nothing of the dump.
    let out = get_logs_for_ai(60, "combined", Some(content.clone()), crash.clone()).unwrap();
    assert_eq!(
        out,
        "=== DEADLOCK MOD MANAGER LOG ===\na\nbb\n\n=== CRASH DUMP (deadlock.mdmp) ===\n"
    );
    let out = get_logs_for_ai(40, "crash", Some(content), crash).unwrap();
    assert_eq!(out, "=== CRASH DUMP (deadlock.mdmp) ===\n01234");
}

#[test]
fn excerpt_without_logs_is_an_error() {
    let none = Err(Error::InvalidInput("No log files found".to_string()));
    assert_eq!(get_logs_for_ai(100, "dmm", None, None), none.clone());
    assert_eq!(
        get_logs_for_ai(100, "crash", Some("x".to_string()), None),
        none.clone()
    );
    assert_eq!(
        get_logs_for_ai(100, "bogus", Some("x".to_string()), Some(("n".to_string(), "t".to_string()))),
        none
    );
}

#[test]
fn log_errors() {
    assert_eq!(
        log_error(LogFailure::LogDir, "no home"),
        Error::InvalidInput("Failed to get log directory: no home".to_string())
    );
    assert_eq!(
        log_error(LogFailure::CreateLogDir, "denied"),
        Error::InvalidInput("Failed to create log directory: denied".to_string())
    );
    assert_eq!(
        log_error(LogFailure::NoLogFile, ""),
        Error::InvalidInput("No log file found".to_string())
    );
}

#[test]
fn logs_of_equal_name_keep_listing_order() {
    let mut a = entry("deadlock-mod-manager.log", true, Some(1));
    a.path = "/logs/first".to_string();
    let mut b = entry("deadlock-mod-manager.log", true, Some(2));
    b.path = "/logs/second".to_string();
    let info = get_log_info("/logs".to_string(), vec![entry("deadlock-mod-manager.0.log", true, Some(3)), a, b]);
    let paths: Vec<&str> = info.files.iter().map(|f| f.path.as_str()).collect();
    assert_eq!(paths, vec!["/logs/deadlock-mod-manager.0.log", "/logs/first", "/logs/second"]);
    assert_eq!(info.total_size, 6);
}
