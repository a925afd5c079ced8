use deadlock_mod_manager::error::Error;
use deadlock_mod_manager::paths::{
    addons_path, child_path, file_extension, file_stem, get_crash_dumps_dir, has_vpk_extension,
    mod_target_dir, parsed_dump_file_name, require_game_path, vanilla_gameinfo_url, TargetOs,
};

#[test]
fn addons_directories() {
    assert_eq!(
        addons_path("/games/Deadlock", None),
        vec!["/games/Deadlock", "game", "citadel", "addons"]
    );
    assert_eq!(
        addons_path("/games/Deadlock", Some("profile_1")),
        vec!["/games/Deadlock", "game", "citadel", "addons", "profile_1"]
    );
}

#[test]
fn crash_dump_directory_per_os() {
    assert_eq!(
        get_crash_dumps_dir(Some("/g".to_string()), TargetOs::Linux),
        Ok(vec![
            "/g".to_string(),
            "game".to_string(),
            "bin".to_string(),
            "linuxsteamrt64".to_string()
        ])
    );
    assert_eq!(
        get_crash_dumps_dir(Some("C:\\g".to_string()), TargetOs::Windows).unwrap()[3],
        "win64"
    );
    assert_eq!(
        get_crash_dumps_dir(Some("/g".to_string()), TargetOs::Macos).unwrap()[3],
        "osx64"
    );
    assert_eq!(
        get_crash_dumps_dir(None, TargetOs::Linux),
        Err(Error::GamePathNotSet)
    );
    assert_eq!(require_game_path(None), Err(Error::GamePathNotSet));
    assert_eq!(require_game_path(Some("/g".to_string())), Ok("/g".to_string()));
}

#[test]
fn extensions_and_stems_follow_std_path() {
    for name in ["a.vpk", ".vpk", "..", "archive.tar.gz", "noext", "trailing.", ".hidden.txt", "..vpk"] {
        let p = std::path::Path::new(name);
        assert_eq!(
            file_extension(name),
            p.extension().map(|e| e.to_str().unwrap().to_string()),
            "extension of {name}"
        );
        if name != ".." {
            assert_eq!(
                file_stem(name),
                p.file_stem().unwrap_or_default().to_str().unwrap(),
                "stem of {name}"
            );
        }
    }
    assert!(has_vpk_extension("pak01_dir.vpk"));
    assert!(!has_vpk_extension(".vpk"));
    assert!(!has_vpk_extension("a.VPK"));
}

#[test]
fn derived_names_and_locations() {
    assert_eq!(parsed_dump_file_name("deadlock_2024.mdmp"), "deadlock_2024.txt");
    assert_eq!(
        vanilla_gameinfo_url("http://localhost:9000"),
        "http://localhost:9000/artifacts/deadlock/gameinfo.gi"
    );
    let target = mod_target_dir("/data", "m1");
    assert_eq!(target, vec!["/data", "mods", "m1"]);
    assert_eq!(child_path(&target, "extracted"), vec!["/data", "mods", "m1", "extracted"]);
}
