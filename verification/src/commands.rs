//! The decisions of the front end's commands that are not about downloads, logs or
//! profiles: locating files of a mod, checking what may be copied, and reporting on
//! the game directory and the file servers.
use vstd::prelude::*;

use crate::error::Error;
use crate::paths::{extension_of, has_vpk_extension};
use crate::text::{concat, debug_quoted, debug_text};

verus! {

/// Whether the add-ons folder and the game's configuration can be written.
#[derive(Clone, Copy, Debug)]
pub struct FilesystemWritableStatus {
    pub addons_writable: bool,
    pub gameinfo_writable: bool,
}

/// A file server to time.
#[derive(Clone, Debug)]
pub struct FileserverLatencyRequest {
    pub id: String,
    pub test_url: String,
}

/// How a file server answered.
#[derive(Clone, Debug)]
pub struct FileserverLatencyResult {
    pub id: String,
    pub latency_ms: Option<u64>,
    pub reachable: bool,
}

/// The writability report: nothing is writable when the game path is unknown;
/// otherwise what the write probes found.
pub fn filesystem_writable_status(
    game_path_known: bool,
    addons_probe_ok: bool,
    gameinfo_probe_ok: bool,
) -> (r: FilesystemWritableStatus)
    ensures
        r.addons_writable == (game_path_known && addons_probe_ok),
        r.gameinfo_writable == (game_path_known && gameinfo_probe_ok),
{
    if !game_path_known {
        return FilesystemWritableStatus { addons_writable: false, gameinfo_writable: false };
    }
    FilesystemWritableStatus { addons_writable: addons_probe_ok, gameinfo_writable: gameinfo_probe_ok }
}

/// How the server `id` answered a probe: `elapsed_ms` is the time the answer took,
/// or none when there was no answer.
pub fn latency_result(id: String, elapsed_ms: Option<u128>) -> (r: FileserverLatencyResult)
    ensures
        r.id == id,
        r.reachable == elapsed_ms is Some,
        match elapsed_ms {
            Some(ms) => r.latency_ms == Some(ms as u64),
            None => r.latency_ms is None,
        },
{
    match elapsed_ms {
        Some(ms) => FileserverLatencyResult { id, latency_ms: Some(ms as u64), reachable: true },
        None => FileserverLatencyResult { id, latency_ms: None, reachable: false },
    }
}

/// The game's path once Steam and the game were looked for: Steam's failure first,
/// then the game's.
pub fn find_game_path_result(steam: Result<(), Error>, game: Result<String, Error>) -> (r: Result<String, Error>)
    ensures
        match steam {
            Err(e) => r == Err::<String, Error>(e),
            Ok(_) => r == game,
        },
{
    match steam {
        Err(e) => Err(e),
        Ok(_) => game,
    }
}

/// A mod file or folder that must exist.
pub fn require_mod_file(exists: bool) -> (r: Result<(), Error>)
    ensures
        exists <==> r is Ok,
        !exists ==> r == Err::<(), Error>(Error::ModFileNotFound),
{
    if exists {
        Ok(())
    } else {
        Err(Error::ModFileNotFound)
    }
}

/// What to show of a mod in the game's files.
#[derive(Clone, Debug, PartialEq, Eq)]
pub enum ShowTarget {
    /// Show this installed file in its folder.
    File(String),
    /// Show the add-ons folder.
    Folder,
}

/// What to show of a mod: an error when the add-ons folder is missing; its first
/// installed file when there is one and it exists; the folder otherwise.
pub fn show_mod_in_game_target(
    addons_exists: bool,
    first_vpk: Option<String>,
    first_vpk_exists: bool,
) -> (r: Result<ShowTarget, Error>)
    ensures
        !addons_exists ==> r == Err::<ShowTarget, Error>(Error::GamePathNotSet),
        addons_exists ==> match first_vpk {
            Some(v) => if first_vpk_exists {
                r == Ok::<ShowTarget, Error>(ShowTarget::File(v))
            } else {
                r == Ok::<ShowTarget, Error>(ShowTarget::Folder)
            },
            None => r == Ok::<ShowTarget, Error>(ShowTarget::Folder),
        },
{
    if !addons_exists {
        return Err(Error::GamePathNotSet);
    }
    match first_vpk {
        Some(v) => {
            if first_vpk_exists {
                Ok(ShowTarget::File(v))
            } else {
                Ok(ShowTarget::Folder)
            }
        },
        None => Ok(ShowTarget::Folder),
    }
}

/// A file offered to replace a mod's installed files: whether it exists and its
/// file name (none when the path has none).
#[derive(Clone, Debug)]
pub struct SourceFile {
    pub exists: bool,
    pub file_name: Option<String>,
}

/// The name a source file's failed check shows.
pub open spec fn shown_name(f: SourceFile) -> Seq<char> {
    match f.file_name {
        Some(n) => n@,
        None => Seq::empty(),
    }
}

/// Whether a source file passes the checks: it exists and its extension is `vpk`.
pub open spec fn source_ok(f: SourceFile) -> bool {
    f.exists && extension_of(shown_name(f)) == Some("vpk"@)
}

/// The error of a source file that fails the checks.
pub open spec fn source_refusal(f: SourceFile, e: Error) -> bool {
    if !f.exists {
        e == Error::ModFileNotFound
    } else {
        e matches Error::InvalidInput(m) && m@ == "File is not a VPK: "@ + debug_quoted(shown_name(f))
    }
}

/// Checks the files offered to replace a mod's installed files, in order: the first
/// that is missing or not a `.vpk` file gives the error.
pub fn validate_vpk_sources(sources: &Vec<SourceFile>) -> (r: Result<(), Error>)
    ensures
        r is Ok <==> forall|i: int| 0 <= i < sources@.len() ==> source_ok(#[trigger] sources@[i]),
        r matches Err(e) ==> exists|i: int|
            0 <= i < sources@.len() && !source_ok(#[trigger] sources@[i]) && source_refusal(sources@[i], e)
                && forall|j: int| 0 <= j < i ==> source_ok(#[trigger] sources@[j]),
{
    let mut i: usize = 0;
    while i < sources.len()
        invariant
            i <= sources@.len(),
            forall|j: int| 0 <= j < i ==> source_ok(#[trigger] sources@[j]),
        decreases sources@.len() - i,
    {
        let s = &sources[i];
        let name: String = match &s.file_name {
            Some(n) => n.clone(),
            None => String::new(),
        };
        assert(name@ == shown_name(*s));
        if !s.exists {
            return Err(Error::ModFileNotFound);
        }
        if !has_vpk_extension(name.as_str()) {
            let shown = debug_text(name.as_str());
            return Err(Error::InvalidInput(concat("File is not a VPK: ", shown.as_str())));
        }
        i = i + 1;
    }
    Ok(())
}

/// The files copied from a mod's local folder, or an error when none was.
pub fn check_copied_vpks(prefixed: Vec<String>) -> (r: Result<Vec<String>, Error>)
    ensures
        prefixed@.len() == 0 <==> r is Err,
        r matches Ok(v) ==> v == prefixed,
        r matches Err(e) ==> e matches Error::InvalidInput(m) && m@ == "No VPK files found in mod directory"@,
{
    if prefixed.len() == 0 {
        Err(Error::InvalidInput("No VPK files found in mod directory".to_owned()))
    } else {
        Ok(prefixed)
    }
}

/// Whether installed files are present: the game path is known, the add-ons folder
/// exists, and one of its entries has the extension `vpk`.
pub fn addons_contain_vpk(game_path_known: bool, addons_exists: bool, entry_names: &Vec<String>) -> (r: bool)
    ensures
        r == (game_path_known && addons_exists && exists|i: int|
            0 <= i < entry_names@.len() && extension_of(#[trigger] entry_names@[i]@) == Some("vpk"@)),
{
    if !game_path_known || !addons_exists {
        return false;
    }
    let mut i: usize = 0;
    while i < entry_names.len()
        invariant
            game_path_known && addons_exists,
            i <= entry_names@.len(),
            forall|j: int| 0 <= j < i ==> extension_of(#[trigger] entry_names@[j]@) != Some("vpk"@),
        decreases entry_names@.len() - i,
    {
        if has_vpk_extension(entry_names[i].as_str()) {
            assert(extension_of(entry_names@[i as int]@) == Some("vpk"@));
            return true;
        }
        i = i + 1;
    }
    false
}

/// The failures of fetching the vanilla game configuration.
#[derive(Clone, Copy, Debug, PartialEq, Eq)]
pub enum VanillaFailure {
    /// The request failed.
    Request,
    /// The server answered with an error status.
    Status,
    /// The answer could not be read.
    Read,
}

/// The message of a failure to fetch the vanilla game configuration.
pub open spec fn vanilla_failure_message(kind: VanillaFailure, detail: Seq<char>) -> Seq<char> {
    match kind {
        VanillaFailure::Request => "Failed to download vanilla gameinfo.gi: "@ + detail,
        VanillaFailure::Status => "Server returned error status: "@ + detail,
        VanillaFailure::Read => "Failed to read response: "@ + detail,
    }
}

/// The error of a failure to fetch the vanilla game configuration.
pub fn vanilla_fetch_error(kind: VanillaFailure, detail: &str) -> (r: Error)
    ensures
        r matches Error::Network(m) && m@ == vanilla_failure_message(kind, detail@),
{
    let m = match kind {
        VanillaFailure::Request => concat("Failed to download vanilla gameinfo.gi: ", detail),
        VanillaFailure::Status => concat("Server returned error status: ", detail),
        VanillaFailure::Read => concat("Failed to read response: ", detail),
    };
    Error::Network(m)
}

/// The first downloaded file that is a supported archive, or an error when there is
/// none; `supported` tells for each file of the mod's folder, in order, whether it is.
pub fn first_supported_archive(supported: &Vec<bool>) -> (r: Result<usize, Error>)
    ensures
        match r {
            Ok(i) => i < supported@.len() && supported@[i as int] && forall|j: int|
                0 <= j < i ==> !#[trigger] supported@[j],
            Err(e) => e == Error::ModFileNotFound && forall|j: int|
                0 <= j < supported@.len() ==> !#[trigger] supported@[j],
        },
{
    let mut i: usize = 0;
    while i < supported.len()
        invariant
            i <= supported@.len(),
            forall|j: int| 0 <= j < i ==> !#[trigger] supported@[j],
        decreases supported@.len() - i,
    {
        if supported[i] {
            return Ok(i);
        }
        i = i + 1;
    }
    Err(Error::ModFileNotFound)
}

/// The failures of commands that reach the settings store, the chat client or the
/// network client.
#[derive(Clone, Copy, Debug, PartialEq, Eq)]
pub enum CommandFailure {
    /// The settings store could not be opened.
    StoreAccess,
    /// The settings store could not be saved.
    StoreSave,
    /// The chat client's lock could not be taken.
    DiscordLock,
    /// The chat presence could not be cleared.
    DiscordClear,
    /// The chat client could not disconnect.
    DiscordDisconnect,
    /// The HTTP client could not be built.
    HttpClient,
}

/// The error of a command failure, given its detail.
pub open spec fn command_failure_error(kind: CommandFailure, detail: Seq<char>, e: Error) -> bool {
    match kind {
        CommandFailure::StoreAccess => e matches Error::InvalidInput(m) && m@
            == "Failed to access store: "@ + detail,
        CommandFailure::StoreSave => e matches Error::InvalidInput(m) && m@ == "Failed to save store: "@
            + detail,
        CommandFailure::DiscordLock => e matches Error::InvalidInput(m) && m@
            == "Failed to acquire Discord client lock: "@ + detail,
        CommandFailure::DiscordClear => e matches Error::InvalidInput(m) && m@
            == "Failed to clear presence: "@ + detail,
        CommandFailure::DiscordDisconnect => e matches Error::InvalidInput(m) && m@
            == "Failed to disconnect: "@ + detail,
        CommandFailure::HttpClient => e matches Error::Network(m) && m@
            == "Failed to build HTTP client: "@ + detail,
    }
}

/// The error of a command failure.
pub fn command_error(kind: CommandFailure, detail: &str) -> (r: Error)
    ensures
        command_failure_error(kind, detail@, r),
{
    match kind {
        CommandFailure::StoreAccess => Error::InvalidInput(concat("Failed to access store: ", detail)),
        CommandFailure::StoreSave => Error::InvalidInput(concat("Failed to save store: ", detail)),
        CommandFailure::DiscordLock => Error::InvalidInput(
            concat("Failed to acquire Discord client lock: ", detail),
        ),
        CommandFailure::DiscordClear => Error::InvalidInput(concat("Failed to clear presence: ", detail)),
        CommandFailure::DiscordDisconnect => Error::InvalidInput(concat("Failed to disconnect: ", detail)),
        CommandFailure::HttpClient => Error::Network(concat("Failed to build HTTP client: ", detail)),
    }
}

} // verus!
