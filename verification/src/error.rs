//! The library's error type, its `kind` tag and its message.
use vstd::prelude::*;

use crate::text::concat;

verus! {

/// Every failure the library reports. Variants that in the application wrap an
/// error value of another library hold that error's message instead.
#[derive(Debug, Clone, PartialEq, Eq)]
pub enum Error {
    /// An I/O failure; holds the failure's own message.
    Io(String),
    /// Bytes that are not UTF-8; holds the decoder's message.
    Utf8(String),
    /// No Steam installation was found.
    SteamNotFound,
    /// The game is in no Steam library.
    GameNotFound,
    /// The game path has not been set.
    GamePathNotSet,
    /// The application handle is not ready.
    AppHandleNotInitialized,
    /// The game configuration could not be parsed; holds the detail.
    GameConfigParse(String),
    /// A mod file is missing.
    ModFileNotFound,
    /// A KeyValues (de)serialisation failure; holds its message.
    KeyValues(String),
    /// A RAR archive failure; holds its message.
    Rar(String),
    /// A ZIP archive failure; holds its message.
    Zip(String),
    /// The mod is invalid; holds the detail.
    ModInvalid(String),
    /// The game is running.
    GameRunning,
    /// The game is not running.
    GameNotRunning,
    /// The game could not be launched.
    GameLaunchFailed(String),
    /// A mod could not be extracted.
    ModExtractionFailed(String),
    /// An input was refused.
    InvalidInput(String),
    /// A path outside the allowed directories was asked for.
    UnauthorizedPath(String),
    /// A network failure.
    Network(String),
    /// A failure of the application shell; holds its message.
    Tauri(String),
    /// A backup could not be created.
    BackupCreationFailed(String),
    /// A backup could not be restored.
    BackupRestoreFailed(String),
    /// The backup does not exist.
    BackupNotFound,
    /// A download failed.
    DownloadFailed(String),
    /// A download was cancelled.
    DownloadCancelled,
    /// A file could not be written.
    FileWriteFailed(String),
    /// The autoexec configuration could not be read.
    AutoexecReadFailed(String),
    /// The autoexec configuration could not be written.
    AutoexecWriteFailed(String),
    /// An operation failed and could not be fully undone.
    RollbackFailed(String),
}

/// The tag under which an error is reported to the front end.
pub open spec fn error_kind(e: Error) -> Seq<char> {
    match e {
        Error::Io(_) => "io"@,
        Error::Utf8(_) => "utf8"@,
        Error::SteamNotFound => "steamNotFound"@,
        Error::GameNotFound => "gameNotFound"@,
        Error::GamePathNotSet => "gamePathNotSet"@,
        Error::AppHandleNotInitialized => "appHandleNotInitialized"@,
        Error::GameConfigParse(_) => "gameConfigParse"@,
        Error::ModFileNotFound => "modFileNotFound"@,
        Error::KeyValues(_) => "keyValues"@,
        Error::Rar(_) => "rar"@,
        Error::Zip(_) => "zip"@,
        Error::ModInvalid(_) => "modInvalid"@,
        Error::GameRunning => "gameRunning"@,
        Error::GameNotRunning => "gameNotRunning"@,
        Error::GameLaunchFailed(_) => "gameLaunchFailed"@,
        Error::ModExtractionFailed(_) => "modExtractionFailed"@,
        Error::InvalidInput(_) => "invalidInput"@,
        Error::UnauthorizedPath(_) => "unauthorizedPath"@,
        Error::Network(_) => "networkError"@,
        Error::Tauri(_) => "tauri"@,
        Error::BackupCreationFailed(_) => "backupCreationFailed"@,
        Error::BackupRestoreFailed(_) => "backupRestoreFailed"@,
        Error::BackupNotFound => "backupNotFound"@,
        Error::DownloadFailed(_) => "downloadFailed"@,
        Error::DownloadCancelled => "downloadCancelled"@,
        Error::FileWriteFailed(_) => "fileWriteFailed"@,
        Error::AutoexecReadFailed(_) => "autoexecReadFailed"@,
        Error::AutoexecWriteFailed(_) => "autoexecWriteFailed"@,
        Error::RollbackFailed(_) => "rollbackFailed"@,
    }
}

/// The human-readable message of an error.
pub open spec fn error_message(e: Error) -> Seq<char> {
    match e {
        Error::Io(m) => m@,
        Error::Utf8(m) => "failed to parse as string: "@ + m@,
        Error::SteamNotFound => "Steam installation not found"@,
        Error::GameNotFound => "Game not found in any Steam library"@,
        Error::GamePathNotSet => "Game path not set - initialize game first"@,
        Error::AppHandleNotInitialized => "App handle not initialized"@,
        Error::GameConfigParse(_) => "Failed to parse game configuration. Try resetting the gameinfo.gi to Vanilla in Settings → Game and restart the mod manager."@,
        Error::ModFileNotFound => "Mod file not found at path"@,
        Error::KeyValues(m) => m@,
        Error::Rar(m) => m@,
        Error::Zip(m) => m@,
        Error::ModInvalid(_) => "Mod is invalid"@,
        Error::GameRunning => "Game is running"@,
        Error::GameNotRunning => "Game is not running"@,
        Error::GameLaunchFailed(m) => "Failed to launch game: "@ + m@,
        Error::ModExtractionFailed(m) => "Failed to extract mod: "@ + m@,
        Error::InvalidInput(m) => "Invalid input: "@ + m@,
        Error::UnauthorizedPath(m) => "Unauthorized path access attempted: "@ + m@,
        Error::Network(m) => "Network error: "@ + m@,
        Error::Tauri(m) => "Tauri error: "@ + m@,
        Error::BackupCreationFailed(m) => "Failed to create backup: "@ + m@,
        Error::BackupRestoreFailed(m) => "Failed to restore backup: "@ + m@,
        Error::BackupNotFound => "Backup not found"@,
        Error::DownloadFailed(m) => "Download failed: "@ + m@,
        Error::DownloadCancelled => "Download cancelled"@,
        Error::FileWriteFailed(m) => "File write failed: "@ + m@,
        Error::AutoexecReadFailed(m) => "Failed to read autoexec config: "@ + m@,
        Error::AutoexecWriteFailed(m) => "Failed to write autoexec config: "@ + m@,
        Error::RollbackFailed(m) => "Operation failed and rollback was incomplete — VPK files may be in an inconsistent state: "@ + m@,
    }
}

impl Error {
    /// The tag under which the error is reported (the `kind` field of its serialised form).
    pub fn kind(&self) -> (r: &'static str)
        ensures
            r@ == error_kind(*self),
    {
        match self {
            Error::Io(_) => "io",
            Error::Utf8(_) => "utf8",
            Error::SteamNotFound => "steamNotFound",
            Error::GameNotFound => "gameNotFound",
            Error::GamePathNotSet => "gamePathNotSet",
            Error::AppHandleNotInitialized => "appHandleNotInitialized",
            Error::GameConfigParse(_) => "gameConfigParse",
            Error::ModFileNotFound => "modFileNotFound",
            Error::KeyValues(_) => "keyValues",
            Error::Rar(_) => "rar",
            Error::Zip(_) => "zip",
            Error::ModInvalid(_) => "modInvalid",
            Error::GameRunning => "gameRunning",
            Error::GameNotRunning => "gameNotRunning",
            Error::GameLaunchFailed(_) => "gameLaunchFailed",
            Error::ModExtractionFailed(_) => "modExtractionFailed",
            Error::InvalidInput(_) => "invalidInput",
            Error::UnauthorizedPath(_) => "unauthorizedPath",
            Error::Network(_) => "networkError",
            Error::Tauri(_) => "tauri",
            Error::BackupCreationFailed(_) => "backupCreationFailed",
            Error::BackupRestoreFailed(_) => "backupRestoreFailed",
            Error::BackupNotFound => "backupNotFound",
            Error::DownloadFailed(_) => "downloadFailed",
            Error::DownloadCancelled => "downloadCancelled",
            Error::FileWriteFailed(_) => "fileWriteFailed",
            Error::AutoexecReadFailed(_) => "autoexecReadFailed",
            Error::AutoexecWriteFailed(_) => "autoexecWriteFailed",
            Error::RollbackFailed(_) => "rollbackFailed",
        }
    }

    /// The human-readable message of the error (the `message` field of its serialised form).
    pub fn message(&self) -> (r: String)
        ensures
            r@ == error_message(*self),
    {
        match self {
            Error::Io(m) => m.clone(),
            Error::Utf8(m) => concat("failed to parse as string: ", m.as_str()),
            Error::SteamNotFound => "Steam installation not found".to_owned(),
            Error::GameNotFound => "Game not found in any Steam library".to_owned(),
            Error::GamePathNotSet => "Game path not set - initialize game first".to_owned(),
            Error::AppHandleNotInitialized => "App handle not initialized".to_owned(),
            Error::GameConfigParse(_) => "Failed to parse game configuration. Try resetting the gameinfo.gi to Vanilla in Settings → Game and restart the mod manager.".to_owned(),
            Error::ModFileNotFound => "Mod file not found at path".to_owned(),
            Error::KeyValues(m) => m.clone(),
            Error::Rar(m) => m.clone(),
            Error::Zip(m) => m.clone(),
            Error::ModInvalid(_) => "Mod is invalid".to_owned(),
            Error::GameRunning => "Game is running".to_owned(),
            Error::GameNotRunning => "Game is not running".to_owned(),
            Error::GameLaunchFailed(m) => concat("Failed to launch game: ", m.as_str()),
            Error::ModExtractionFailed(m) => concat("Failed to extract mod: ", m.as_str()),
            Error::InvalidInput(m) => concat("Invalid input: ", m.as_str()),
            Error::UnauthorizedPath(m) => concat("Unauthorized path access attempted: ", m.as_str()),
            Error::Network(m) => concat("Network error: ", m.as_str()),
            Error::Tauri(m) => concat("Tauri error: ", m.as_str()),
            Error::BackupCreationFailed(m) => concat("Failed to create backup: ", m.as_str()),
            Error::BackupRestoreFailed(m) => concat("Failed to restore backup: ", m.as_str()),
            Error::BackupNotFound => "Backup not found".to_owned(),
            Error::DownloadFailed(m) => concat("Download failed: ", m.as_str()),
            Error::DownloadCancelled => "Download cancelled".to_owned(),
            Error::FileWriteFailed(m) => concat("File write failed: ", m.as_str()),
            Error::AutoexecReadFailed(m) => concat("Failed to read autoexec config: ", m.as_str()),
            Error::AutoexecWriteFailed(m) => concat("Failed to write autoexec config: ", m.as_str()),
            Error::RollbackFailed(m) => concat("Operation failed and rollback was incomplete — VPK files may be in an inconsistent state: ", m.as_str()),
        }
    }
}

impl Error {
    /// The serialised form of the error, field by field and in order: the struct is
    /// named `Error` and holds `kind` (see [`error_kind`]) then `message` (see
    /// [`error_message`]), nothing else.
    pub fn serialized_fields(&self) -> (r: (&'static str, Vec<(&'static str, String)>))
        ensures
            r.0@ == "Error"@,
            r.1@.len() == 2,
            r.1@[0].0@ == "kind"@,
            r.1@[0].1@ == error_kind(*self),
            r.1@[1].0@ == "message"@,
            r.1@[1].1@ == error_message(*self),
    {
        let mut fields: Vec<(&'static str, String)> = Vec::new();
        fields.push(("kind", self.kind().to_owned()));
        fields.push(("message", self.message()));
        ("Error", fields)
    }
}

} // verus!
