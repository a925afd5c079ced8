use deadlock_mod_manager::error::Error;
use deadlock_mod_manager::profiles::{
    containment_error, is_installed_vpk, is_profile_folder, profile_folder_name,
    require_within_addons, sanitize_profile_name, validate_profile_folder_for_delete,
    ContainmentFailure,
};

#[test]
fn profile_names_are_sanitized() {
    assert_eq!(sanitize_profile_name("My Cool Profile!"), "my-cool-profile");
    assert_eq!(sanitize_profile_name("  --Hello__  "), "hello");
    assert_eq!(sanitize_profile_name("a/b\\c.d"), "a_b_c_d");
    assert_eq!(sanitize_profile_name("---"), "");
    assert_eq!(sanitize_profile_name(""), "");
    assert_eq!(sanitize_profile_name("\u{C9}t\u{E9} 2024"), "\u{e9}t\u{e9}-2024");
    assert_eq!(sanitize_profile_name("x\ty"), "x-y");
}

#[test]
fn profile_folder_names() {
    assert_eq!(
        profile_folder_name("profile_1_ab", "Ranked Setup"),
        "profile_1_ab_ranked-setup"
    );
    assert_eq!(profile_folder_name("profile_2", "!!"), "profile_2_");
}

#[test]
fn deletion_refuses_unsafe_names() {
    let invalid = Error::InvalidInput("Invalid profile folder name".to_string());
    let prefix = Error::InvalidInput("Profile folder must start with 'profile_'".to_string());
    assert_eq!(validate_profile_folder_for_delete(""), Err(invalid.clone()));
    assert_eq!(validate_profile_folder_for_delete("."), Err(invalid.clone()));
    assert_eq!(validate_profile_folder_for_delete(".."), Err(invalid.clone()));
    assert_eq!(validate_profile_folder_for_delete("mods"), Err(prefix.clone()));
    assert_eq!(validate_profile_folder_for_delete("../profile_x"), Err(prefix));
    assert_eq!(validate_profile_folder_for_delete("profile_../x"), Err(invalid.clone()));
    assert_eq!(validate_profile_folder_for_delete("profile_a/b"), Err(invalid.clone()));
    assert_eq!(validate_profile_folder_for_delete("profile_a\\b"), Err(invalid));
    assert_eq!(validate_profile_folder_for_delete("profile_1_ranked"), Ok(()));
}

#[test]
fn profile_and_vpk_entries() {
    assert!(is_profile_folder(true, "profile_1_x"));
    assert!(!is_profile_folder(false, "profile_1_x"));
    assert!(!is_profile_folder(true, "pak01_dir"));
    assert!(is_installed_vpk(true, "pak01_dir.vpk"));
    assert!(!is_installed_vpk(true, "pak01_dir.vpk.bak"));
    assert!(!is_installed_vpk(false, "x.vpk"));
}

fn parts(p: &[&str]) -> Vec<String> {
    p.iter().map(|s| s.to_string()).collect()
}

#[test]
fn resolved_profile_must_lie_within_addons() {
    let addons = parts(&["/", "game", "citadel", "addons"]);
    assert_eq!(require_within_addons(&addons, &parts(&["/", "game", "citadel", "addons", "profile_1"])), Ok(()));
    assert_eq!(require_within_addons(&addons, &addons), Ok(()));
    let outside = Err(Error::UnauthorizedPath("Profile folder must be within addons directory".to_string()));
    assert_eq!(require_within_addons(&addons, &parts(&["/", "game", "citadel", "addons2", "profile_1"])), outside);
    assert_eq!(require_within_addons(&addons, &parts(&["/", "game"])), outside);
    assert_eq!(require_within_addons(&addons, &parts(&["/", "tmp", "citadel", "addons", "x"])), outside);
}

#[test]
fn containment_errors_read() {
    assert_eq!(
        containment_error(ContainmentFailure::AddonsUnresolved, "ignored"),
        Error::UnauthorizedPath("Unable to resolve addons directory".to_string())
    );
    assert_eq!(
        containment_error(ContainmentFailure::ProfileUnresolved, "/g/profile_x"),
        Error::UnauthorizedPath("Unable to resolve profile path: /g/profile_x".to_string())
    );
}

#[test]
fn white_space_in_names_matches_the_standard_library() {
    for n in 0u32..0x3100 {
        if let Some(c) = char::from_u32(n).filter(|c| *c != '-') {
            let sanitized = sanitize_profile_name(&format!("a{c}b"));
            assert_eq!(sanitized == "a-b", c.is_whitespace(), "U+{n:04X}");
        }
    }
}
