use deadlock_mod_manager::commands::{
    addons_contain_vpk, check_copied_vpks, command_error, filesystem_writable_status,
    find_game_path_result, first_supported_archive, latency_result, require_mod_file,
    show_mod_in_game_target, validate_vpk_sources, vanilla_fetch_error, CommandFailure,
    ShowTarget, SourceFile, VanillaFailure,
};
use deadlock_mod_manager::error::Error;

#[test]
fn writability_report() {
    let s = filesystem_writable_status(false, true, true);
    assert!(!s.addons_writable && !s.gameinfo_writable);
    let s = filesystem_writable_status(true, true, false);
    assert!(s.addons_writable && !s.gameinfo_writable);
}

#[test]
fn latency_results() {
    let r = latency_result("eu".to_string(), Some(42));
    assert_eq!(r.id, "eu");
    assert_eq!(r.latency_ms, Some(42));
    assert!(r.reachable);
    let r = latency_result("us".to_string(), None);
    assert_eq!(r.latency_ms, None);
    assert!(!r.reachable);
}

#[test]
fn game_path_search_reports_steam_first() {
    assert_eq!(
        find_game_path_result(Err(Error::SteamNotFound), Err(Error::GameNotFound)),
        Err(Error::SteamNotFound)
    );
    assert_eq!(
        find_game_path_result(Ok(()), Err(Error::GameNotFound)),
        Err(Error::GameNotFound)
    );
    assert_eq!(
        find_game_path_result(Ok(()), Ok("/g".to_string())),
        Ok("/g".to_string())
    );
    assert_eq!(require_mod_file(false), Err(Error::ModFileNotFound));
    assert_eq!(require_mod_file(true), Ok(()));
}

#[test]
fn what_to_show_of_a_mod() {
    assert_eq!(
        show_mod_in_game_target(false, Some("a.vpk".to_string()), true),
        Err(Error::GamePathNotSet)
    );
    assert_eq!(
        show_mod_in_game_target(true, Some("a.vpk".to_string()), true),
        Ok(ShowTarget::File("a.vpk".to_string()))
    );
    assert_eq!(
        show_mod_in_game_target(true, Some("a.vpk".to_string()), false),
        Ok(ShowTarget::Folder)
    );
    assert_eq!(show_mod_in_game_target(true, None, false), Ok(ShowTarget::Folder));
}

#[test]
fn replacement_sources_are_checked_in_order() {
    let ok = SourceFile { exists: true, file_name: Some("new.vpk".to_string()) };
    let missing = SourceFile { exists: false, file_name: Some("gone.vpk".to_string()) };
    let text = SourceFile { exists: true, file_name: Some("notes.txt".to_string()) };
    let nameless = SourceFile { exists: true, file_name: None };
    assert_eq!(validate_vpk_sources(&vec![ok.clone()]), Ok(()));
    assert_eq!(validate_vpk_sources(&vec![]), Ok(()));
    assert_eq!(
        validate_vpk_sources(&vec![ok.clone(), missing.clone(), text.clone()]),
        Err(Error::ModFileNotFound)
    );
    assert_eq!(
        validate_vpk_sources(&vec![text, missing]),
        Err(Error::InvalidInput("File is not a VPK: \"notes.txt\"".to_string()))
    );
    assert_eq!(
        validate_vpk_sources(&vec![nameless]),
        Err(Error::InvalidInput("File is not a VPK: \"\"".to_string()))
    );
}

#[test]
fn copied_and_present_vpks() {
    assert_eq!(
        check_copied_vpks(Vec::new()),
        Err(Error::InvalidInput("No VPK files found in mod directory".to_string()))
    );
    assert_eq!(
        check_copied_vpks(vec!["m_pak01.vpk".to_string()]),
        Ok(vec!["m_pak01.vpk".to_string()])
    );
    let names = vec!["readme.txt".to_string(), "pak01_dir.vpk".to_string()];
    assert!(addons_contain_vpk(true, true, &names));
    assert!(!addons_contain_vpk(false, true, &names));
    assert!(!addons_contain_vpk(true, false, &names));
    assert!(!addons_contain_vpk(true, true, &vec![".vpk".to_string()]));
    assert_eq!(first_supported_archive(&vec![false, true, true]), Ok(1));
    assert_eq!(first_supported_archive(&vec![false]), Err(Error::ModFileNotFound));
}

#[test]
fn command_and_network_errors() {
    assert_eq!(
        vanilla_fetch_error(VanillaFailure::Request, "dns"),
        Error::Network("Failed to download vanilla gameinfo.gi: dns".to_string())
    );
    assert_eq!(
        vanilla_fetch_error(VanillaFailure::Status, "500 Internal Server Error"),
        Error::Network("Server returned error status: 500 Internal Server Error".to_string())
    );
    assert_eq!(
        vanilla_fetch_error(VanillaFailure::Read, "eof"),
        Error::Network("Failed to read response: eof".to_string())
    );
    assert_eq!(
        command_error(CommandFailure::StoreAccess, "x"),
        Error::InvalidInput("Failed to access store: x".to_string())
    );
    assert_eq!(
        command_error(CommandFailure::StoreSave, "x"),
        Error::InvalidInput("Failed to save store: x".to_string())
    );
    assert_eq!(
        command_error(CommandFailure::DiscordLock, "poisoned"),
        Error::InvalidInput("Failed to acquire Discord client lock: poisoned".to_string())
    );
    assert_eq!(
        command_error(CommandFailure::DiscordClear, "x"),
        Error::InvalidInput("Failed to clear presence: x".to_string())
    );
    assert_eq!(
        command_error(CommandFailure::DiscordDisconnect, "x"),
        Error::InvalidInput("Failed to disconnect: x".to_string())
    );
    assert_eq!(
        command_error(CommandFailure::HttpClient, "tls"),
        Error::Network("Failed to build HTTP client: tls".to_string())
    );
}
