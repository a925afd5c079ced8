use deadlock_mod_manager::error::Error;

#[test]
fn every_error_has_its_kind() {
    let cases: Vec<(Error, &str)> = vec![
        (Error::Io("x".to_string()), "io"),
        (Error::Utf8("x".to_string()), "utf8"),
        (Error::SteamNotFound, "steamNotFound"),
        (Error::GameNotFound, "gameNotFound"),
        (Error::GamePathNotSet, "gamePathNotSet"),
        (Error::AppHandleNotInitialized, "appHandleNotInitialized"),
        (Error::GameConfigParse("x".to_string()), "gameConfigParse"),
        (Error::ModFileNotFound, "modFileNotFound"),
        (Error::KeyValues("x".to_string()), "keyValues"),
        (Error::Rar("x".to_string()), "rar"),
        (Error::Zip("x".to_string()), "zip"),
        (Error::ModInvalid("x".to_string()), "modInvalid"),
        (Error::GameRunning, "gameRunning"),
        (Error::GameNotRunning, "gameNotRunning"),
        (Error::GameLaunchFailed("x".to_string()), "gameLaunchFailed"),
        (Error::ModExtractionFailed("x".to_string()), "modExtractionFailed"),
        (Error::InvalidInput("x".to_string()), "invalidInput"),
        (Error::UnauthorizedPath("x".to_string()), "unauthorizedPath"),
        (Error::Network("x".to_string()), "networkError"),
        (Error::Tauri("x".to_string()), "tauri"),
        (Error::BackupCreationFailed("x".to_string()), "backupCreationFailed"),
        (Error::BackupRestoreFailed("x".to_string()), "backupRestoreFailed"),
        (Error::BackupNotFound, "backupNotFound"),
        (Error::DownloadFailed("x".to_string()), "downloadFailed"),
        (Error::DownloadCancelled, "downloadCancelled"),
        (Error::FileWriteFailed("x".to_string()), "fileWriteFailed"),
        (Error::AutoexecReadFailed("x".to_string()), "autoexecReadFailed"),
        (Error::AutoexecWriteFailed("x".to_string()), "autoexecWriteFailed"),
        (Error::RollbackFailed("x".to_string()), "rollbackFailed"),
    ];
    let mut seen: Vec<&str> = Vec::new();
    for (e, k) in &cases {
        assert_eq!(e.kind(), *k);
        assert!(!seen.contains(k));
        seen.push(k);
    }
    assert_eq!(seen.len(), 29);
}

#[test]
fn error_messages_follow_their_templates() {
    assert_eq!(Error::Io("disk full".to_string()).message(), "disk full");
    assert_eq!(Error::Zip("bad header".to_string()).message(), "bad header");
    assert_eq!(
        Error::Utf8("invalid byte".to_string()).message(),
        "failed to parse as string: invalid byte"
    );
    assert_eq!(Error::SteamNotFound.message(), "Steam installation not found");
    assert_eq!(Error::GameNotFound.message(), "Game not found in any Steam library");
    assert_eq!(
        Error::GamePathNotSet.message(),
        "Game path not set - initialize game first"
    );
    assert_eq!(
        Error::GameConfigParse("line 3".to_string()).message(),
        "Failed to parse game configuration. Try resetting the gameinfo.gi to Vanilla in Settings \u{2192} Game and restart the mod manager."
    );
    assert_eq!(Error::ModInvalid("anything".to_string()).message(), "Mod is invalid");
    assert_eq!(
        Error::InvalidInput("bad".to_string()).message(),
        "Invalid input: bad"
    );
    assert_eq!(
        Error::Network("timeout".to_string()).message(),
        "Network error: timeout"
    );
    assert_eq!(Error::Tauri("boom".to_string()).message(), "Tauri error: boom");
    assert_eq!(Error::DownloadCancelled.message(), "Download cancelled");
    assert_eq!(
        Error::RollbackFailed("a.vpk".to_string()).message(),
        "Operation failed and rollback was incomplete \u{2014} VPK files may be in an inconsistent state: a.vpk"
    );
    assert_eq!(
        Error::AutoexecWriteFailed("denied".to_string()).message(),
        "Failed to write autoexec config: denied"
    );
}

#[test]
fn serialized_form_is_kind_then_message() {
    let (name, fields) = Error::Network("timed out".to_string()).serialized_fields();
    assert_eq!(name, "Error");
    assert_eq!(
        fields,
        vec![("kind", "networkError".to_string()), ("message", "Network error: timed out".to_string())]
    );
    let (_, fields) = Error::GamePathNotSet.serialized_fields();
    assert_eq!(fields[0], ("kind", "gamePathNotSet".to_string()));
    assert_eq!(fields[1].1, Error::GamePathNotSet.message());
}
