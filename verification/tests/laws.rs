use deadlock_mod_manager::logs::get_logs_for_ai;
use deadlock_mod_manager::paths::{file_extension, file_stem};
use deadlock_mod_manager::profiles::{
    profile_folder_name, sanitize_profile_name, validate_profile_folder_for_delete,
};

#[test]
fn stem_dot_extension_rebuilds_the_name() {
    for name in ["a.vpk", "archive.tar.gz", "trailing.", ".hidden.txt", "..vpk"] {
        let ext = file_extension(name).unwrap();
        assert_eq!(format!("{}.{}", file_stem(name), ext), name);
    }
}

#[test]
fn sanitized_names_have_clean_ends_and_safe_characters() {
    for raw in ["__x__", "-a b-", "!?", "  Mixed CASE  name ", "x/y\\z..w"] {
        let s = sanitize_profile_name(raw);
        assert!(!s.starts_with('-') && !s.starts_with('_'), "{s}");
        assert!(!s.ends_with('-') && !s.ends_with('_'), "{s}");
        assert!(s.chars().all(|c| c.is_alphanumeric() || c == '-' || c == '_'), "{s}");
        let folder = profile_folder_name("profile_9_abc", raw);
        assert!(folder.starts_with("profile_9_abc_"));
        assert_eq!(validate_profile_folder_for_delete(&folder), Ok(()));
    }
}

#[test]
fn log_excerpt_tail_stays_within_budget() {
    let content: String = (0..50).map(|i| format!("line number {i}\n")).collect();
    for budget in [33usize, 40, 80, 200, 2000] {
        let out = get_logs_for_ai(budget, "dmm", Some(content.clone()), None).unwrap();
        let tail_len = out.len() - 33 - 1;
        assert!(tail_len <= budget.saturating_sub(33), "budget {budget}");
        assert!(content.ends_with(&out[33..out.len() - 1]));
    }
}
