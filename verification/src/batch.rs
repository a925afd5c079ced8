//! The decisions of importing a profile's mods and of updating several mods in one
//! go: when they may start, how long a download is waited for, how the installed files
//! are looked for, and how each mod's outcome is reported.
use vstd::prelude::*;

use crate::download_manager::DownloadFileDto;
use crate::error::Error;
use crate::text::{concat, numeral, numeral_text, str_eq, take_chars};

verus! {

/// How long one mod's download is waited for, in milliseconds.
pub const DOWNLOAD_TIMEOUT_MS: u128 = 600_000;

/// How often a download's status is asked for while waiting, in milliseconds.
pub const POLL_INTERVAL_MS: u64 = 500;

/// How many times the installed files of a downloaded mod are looked for.
pub const VPK_CHECK_ATTEMPTS: u32 = 10;

/// The first pause between two looks, in milliseconds; each pause doubles the last.
pub const INITIAL_RETRY_DELAY_MS: u64 = 100;

/// The longest pause between two looks, in milliseconds.
pub const MAX_RETRY_DELAY_MS: u64 = 1000;

/// A mod of a profile to import.
#[derive(Clone, Debug)]
pub struct ProfileImportMod<F> {
    pub mod_id: String,
    pub mod_name: String,
    pub download_files: Vec<DownloadFileDto>,
    pub file_tree: Option<F>,
}

/// A mod that was installed, as the front end records it.
#[derive(Clone, Debug)]
pub struct InstalledModInfo<F> {
    pub mod_id: String,
    pub mod_name: String,
    pub installed_vpks: Vec<String>,
    pub file_tree: Option<F>,
}

/// What a profile import did.
#[derive(Clone, Debug)]
pub struct ProfileImportResult<F> {
    pub profile_folder: String,
    pub succeeded: Vec<String>,
    pub failed: Vec<(String, String)>,
    pub installed_mods: Vec<InstalledModInfo<F>>,
}

/// A mod to update.
#[derive(Clone, Debug)]
pub struct BatchUpdateMod<F> {
    pub mod_id: String,
    pub mod_name: String,
    pub download_files: Vec<DownloadFileDto>,
    pub file_tree: Option<F>,
    pub installed_vpks: Vec<String>,
}

/// What a batch update did.
#[derive(Clone, Debug)]
pub struct BatchUpdateResult<F> {
    pub backup_name: String,
    pub succeeded: Vec<String>,
    pub failed: Vec<(String, String)>,
    pub installed_mods: Vec<InstalledModInfo<F>>,
}

/// The two batch operations.
#[derive(Clone, Copy, Debug, PartialEq, Eq)]
pub enum BatchKind {
    Import,
    Update,
}

/// The message of a batch with no mods.
pub open spec fn empty_batch_message(kind: BatchKind) -> Seq<char> {
    match kind {
        BatchKind::Import => "No mods provided for import"@,
        BatchKind::Update => "No mods provided for update"@,
    }
}

/// A batch needs at least one mod.
pub fn require_mods(count: usize, kind: BatchKind) -> (r: Result<(), Error>)
    ensures
        count == 0 <==> r is Err,
        r matches Err(e) ==> e matches Error::InvalidInput(m) && m@ == empty_batch_message(kind),
{
    if count == 0 {
        let m = match kind {
            BatchKind::Import => "No mods provided for import",
            BatchKind::Update => "No mods provided for update",
        };
        Err(Error::InvalidInput(m.to_owned()))
    } else {
        Ok(())
    }
}

/// Whether an import creates a new profile (`create`) rather than overriding one.
pub fn is_create_import(import_type: &str) -> (r: bool)
    ensures
        r == (import_type@ == "create"@),
{
    str_eq(import_type, "create")
}

/// The id of a profile created by an import at `timestamp_ms` (milliseconds since
/// the epoch) and `nanos` (the sub-second nanoseconds): `profile_`, the milliseconds,
/// `_`, and at most nine hexadecimal digits of the nanoseconds.
pub open spec fn import_profile_id_spec(timestamp_ms: nat, nanos: nat) -> Seq<char> {
    let hex = numeral(nanos, 16);
    "profile_"@ + numeral(timestamp_ms, 10) + "_"@ + hex.take(
        if 9 < hex.len() {
            9
        } else {
            hex.len() as int
        },
    )
}

/// The id of a profile created by an import (see [`import_profile_id_spec`]).
pub fn import_profile_id(timestamp_ms: u128, nanos: u32) -> (r: String)
    ensures
        r@ == import_profile_id_spec(timestamp_ms as nat, nanos as nat),
{
    let ms = numeral_text(timestamp_ms, 10);
    let hex = numeral_text(nanos as u128, 16);
    let random_part = take_chars(hex.as_str(), 9);
    let mut r = concat("profile_", ms.as_str());
    r.append("_");
    r.append(random_part.as_str());
    r
}

/// A profile folder's name as a batch update passes it on: none when empty.
pub fn profile_folder_option(profile_folder: &str) -> (r: Option<String>)
    ensures
        match r {
            Some(p) => profile_folder@.len() > 0 && p@ == profile_folder@,
            None => profile_folder@.len() == 0,
        },
{
    if profile_folder.is_empty() {
        None
    } else {
        Some(profile_folder.to_owned())
    }
}

/// Whether the wait for a download goes on: it has not finished and the time is not up.
pub fn keep_waiting(complete: bool, elapsed_ms: u128) -> (r: bool)
    ensures
        r == (!complete && elapsed_ms < DOWNLOAD_TIMEOUT_MS),
{
    !complete && elapsed_ms < DOWNLOAD_TIMEOUT_MS
}

/// Whether a download has finished, given its reported status: it has once no status
/// is reported or the status is other than `downloading`.
pub fn download_finished(status: Option<&str>) -> (r: bool)
    ensures
        r == match status {
            Some(s) => s@ != "downloading"@,
            None => true,
        },
{
    match status {
        Some(s) => !str_eq(s, "downloading"),
        None => true,
    }
}

/// After waiting: the failure of the download, if any — the error met while asking
/// for its status, or a time-out when it did not finish.
pub fn download_wait_failure(complete: bool, error: Option<String>) -> (r: Option<String>)
    ensures
        match error {
            Some(e) => r == Some(e),
            None => if complete {
                r is None
            } else {
                r matches Some(m) && m@ == "Download timeout"@
            },
        },
{
    match error {
        Some(e) => Some(e),
        None => {
            if complete {
                None
            } else {
                Some("Download timeout".to_owned())
            }
        },
    }
}

/// The message of a failure to ask for a download's status.
pub fn status_check_failure(detail: &str) -> (r: String)
    ensures
        r@ == "Failed to check download status: "@ + detail@,
{
    concat("Failed to check download status: ", detail)
}

/// What to do after one look for a downloaded mod's installed files.
#[derive(Clone, Debug, PartialEq, Eq)]
pub enum VerifyStep {
    /// Files were found.
    Found,
    /// The look failed; holds the failure's message.
    CheckFailed(String),
    /// None found yet: look again after this many milliseconds.
    RetryAfter(u64),
    /// None found on the last allowed look.
    GaveUp,
}

/// The look for a downloaded mod's installed files: how many looks were made and the
/// pause before the next.
pub struct VpkVerifier {
    attempt: u32,
    delay_ms: u64,
}

/// The pause after `delay`: twice as long, at most [`MAX_RETRY_DELAY_MS`].
pub open spec fn next_delay(delay: int) -> int {
    if 2 * delay < MAX_RETRY_DELAY_MS {
        2 * delay
    } else {
        MAX_RETRY_DELAY_MS as int
    }
}

/// The message of a failed look.
pub open spec fn verify_failure_message(detail: Seq<char>) -> Seq<char> {
    "Failed to verify download: "@ + detail
}

impl VpkVerifier {
    /// Looks made so far.
    pub closed spec fn attempts(self) -> int {
        self.attempt as int
    }

    /// The pause before the next look.
    pub closed spec fn delay(self) -> int {
        self.delay_ms as int
    }

    /// Whether another look is due.
    pub closed spec fn looking(self) -> bool {
        self.attempt < VPK_CHECK_ATTEMPTS && self.delay_ms <= MAX_RETRY_DELAY_MS
    }

    /// A look that has not begun.
    pub fn new() -> (r: Self)
        ensures
            r.attempts() == 0,
            r.delay() == INITIAL_RETRY_DELAY_MS,
            r.looking(),
    {
        VpkVerifier { attempt: 0, delay_ms: INITIAL_RETRY_DELAY_MS }
    }

    /// The outcome of one look: the number of files found, or the failure's message.
    pub fn on_check(&mut self, outcome: Result<usize, String>) -> (step: VerifyStep)
        requires
            old(self).looking(),
        ensures
            match outcome {
                Ok(n) => if n > 0 {
                    step == VerifyStep::Found
                } else if old(self).attempts() < VPK_CHECK_ATTEMPTS - 1 {
                    &&& step == VerifyStep::RetryAfter(old(self).delay() as u64)
                    &&& final(self).attempts() == old(self).attempts() + 1
                    &&& final(self).delay() == next_delay(old(self).delay())
                    &&& final(self).looking()
                } else {
                    step == VerifyStep::GaveUp
                },
                Err(m) => step matches VerifyStep::CheckFailed(s) && s@
                    == verify_failure_message(m@),
            },
    {
        match outcome {
            Ok(n) => {
                if n > 0 {
                    VerifyStep::Found
                } else if self.attempt < VPK_CHECK_ATTEMPTS - 1 {
                    let d = self.delay_ms;
                    self.attempt = self.attempt + 1;
                    self.delay_ms = if 2 * d < MAX_RETRY_DELAY_MS {
                        2 * d
                    } else {
                        MAX_RETRY_DELAY_MS
                    };
                    VerifyStep::RetryAfter(d)
                } else {
                    VerifyStep::GaveUp
                }
            },
            Err(m) => VerifyStep::CheckFailed(concat("Failed to verify download: ", m.as_str())),
        }
    }
}

/// How one mod of a batch ended.
#[derive(Clone, Debug)]
pub enum ModOutcome<F> {
    /// It was installed.
    Installed(InstalledModInfo<F>),
    /// It failed; holds the message.
    Failed(String),
    /// It downloaded, but its installed files were never found.
    NoVpksFound,
}

/// The message recorded when a mod's installed files were never found.
pub open spec fn no_vpks_message() -> Seq<char> {
    "Download completed but no VPKs found"@
}

/// The view of a batch report: succeeded ids, failed ids with messages, installed mods.
pub type ReportView<F> = (Seq<Seq<char>>, Seq<(Seq<char>, Seq<char>)>, Seq<InstalledModInfo<F>>);

/// Whether `id` is among the failed.
pub open spec fn failed_contains(failed: Seq<(Seq<char>, Seq<char>)>, id: Seq<char>) -> bool {
    exists|i: int| 0 <= i < failed.len() && #[trigger] failed[i].0 == id
}

/// The report after mod `id` ended with `o`. With `dedupe_missing`, a mod whose files
/// were never found is recorded as failed only if no failure is recorded for its id.
pub open spec fn report_after<F>(
    r: ReportView<F>,
    id: Seq<char>,
    o: ModOutcome<F>,
    dedupe_missing: bool,
) -> ReportView<F> {
    match o {
        ModOutcome::Installed(info) => (r.0.push(id), r.1, r.2.push(info)),
        ModOutcome::Failed(m) => (r.0, r.1.push((id, m@)), r.2),
        ModOutcome::NoVpksFound => if dedupe_missing && failed_contains(r.1, id) {
            r
        } else {
            (r.0, r.1.push((id, no_vpks_message())), r.2)
        },
    }
}

/// The report after the mods `ids` ended with `os`, one after the other.
pub open spec fn report_of<F>(
    ids: Seq<Seq<char>>,
    os: Seq<ModOutcome<F>>,
    dedupe_missing: bool,
) -> ReportView<F>
    decreases ids.len(),
{
    if ids.len() == 0 || os.len() == 0 {
        (Seq::empty(), Seq::empty(), Seq::empty())
    } else {
        report_after(
            report_of(ids.drop_last(), os.drop_last(), dedupe_missing),
            ids.last(),
            os.last(),
            dedupe_missing,
        )
    }
}

/// The succeeded and failed mods of a batch, and the installed ones, as they are reported.
pub struct BatchReport<F> {
    pub succeeded: Vec<String>,
    pub failed: Vec<(String, String)>,
    pub installed_mods: Vec<InstalledModInfo<F>>,
}

/// The view of a failed list.
pub open spec fn failed_view(f: Seq<(String, String)>) -> Seq<(Seq<char>, Seq<char>)> {
    f.map_values(|p: (String, String)| (p.0@, p.1@))
}

impl<F> BatchReport<F> {
    /// The report's view.
    pub open spec fn view_report(self) -> ReportView<F> {
        (crate::text::views(self.succeeded@), failed_view(self.failed@), self.installed_mods@)
    }

    /// A report of nothing.
    pub fn new() -> (r: Self)
        ensures
            r.view_report() == (
                Seq::<Seq<char>>::empty(),
                Seq::<(Seq<char>, Seq<char>)>::empty(),
                Seq::<InstalledModInfo<F>>::empty(),
            ),
    {
        let r = BatchReport { succeeded: Vec::new(), failed: Vec::new(), installed_mods: Vec::new() };
        assert(r.view_report().0 =~= Seq::<Seq<char>>::empty());
        assert(r.view_report().1 =~= Seq::<(Seq<char>, Seq<char>)>::empty());
        r
    }

    /// Whether a failure is recorded for `id`.
    pub fn has_failed(&self, id: &str) -> (r: bool)
        ensures
            r == failed_contains(failed_view(self.failed@), id@),
    {
        let mut i: usize = 0;
        while i < self.failed.len()
            invariant
                i <= self.failed@.len(),
                forall|j: int| 0 <= j < i ==> #[trigger] self.failed@[j].0@ != id@,
            decreases self.failed@.len() - i,
        {
            if str_eq(self.failed[i].0.as_str(), id) {
                assert(failed_view(self.failed@)[i as int].0 == id@);
                return true;
            }
            i = i + 1;
        }
        assert forall|j: int|
            0 <= j < failed_view(self.failed@).len() implies #[trigger] failed_view(
            self.failed@,
        )[j].0 != id@ by {
            assert(failed_view(self.failed@)[j].0 == self.failed@[j].0@);
        }
        false
    }

    /// Records how the mod `id` ended (see [`report_after`]).
    pub fn record(&mut self, id: &str, outcome: ModOutcome<F>, dedupe_missing: bool)
        ensures
            final(self).view_report() == report_after(
                old(self).view_report(),
                id@,
                outcome,
                dedupe_missing,
            ),
    {
        let ghost o = outcome;
        match outcome {
            ModOutcome::Installed(info) => {
                let s = id.to_owned();
                assert(crate::text::views(self.succeeded@.push(s)) =~= crate::text::views(
                    self.succeeded@,
                ).push(id@));
                self.succeeded.push(s);
                self.installed_mods.push(info);
            },
            ModOutcome::Failed(m) => {
                let p = (id.to_owned(), m);
                assert(failed_view(self.failed@.push(p)) =~= failed_view(self.failed@).push(
                    (p.0@, p.1@),
                ));
                self.failed.push(p);
            },
            ModOutcome::NoVpksFound => {
                if dedupe_missing && self.has_failed(id) {
                } else {
                    let p = (id.to_owned(), "Download completed but no VPKs found".to_owned());
                    assert(failed_view(self.failed@.push(p)) =~= failed_view(self.failed@).push(
                        (p.0@, p.1@),
                    ));
                    self.failed.push(p);
                }
            },
        }
    }

    /// The report of a profile import into `profile_folder`.
    pub fn into_import_result(self, profile_folder: String) -> (r: ProfileImportResult<F>)
        ensures
            r.profile_folder == profile_folder,
            r.succeeded == self.succeeded,
            r.failed == self.failed,
            r.installed_mods == self.installed_mods,
    {
        ProfileImportResult {
            profile_folder,
            succeeded: self.succeeded,
            failed: self.failed,
            installed_mods: self.installed_mods,
        }
    }

    /// The report of a batch update backed up as `backup_name`.
    pub fn into_update_result(self, backup_name: String) -> (r: BatchUpdateResult<F>)
        ensures
            r.backup_name == backup_name,
            r.succeeded == self.succeeded,
            r.failed == self.failed,
            r.installed_mods == self.installed_mods,
    {
        BatchUpdateResult {
            backup_name,
            succeeded: self.succeeded,
            failed: self.failed,
            installed_mods: self.installed_mods,
        }
    }
}

/// The stages one mod of a batch goes through.
#[derive(Clone, Copy, Debug, PartialEq, Eq)]
pub enum ModStage {
    /// Remove the mod's old installed files (batch updates only).
    Clean,
    /// Queue the mod's download and wait for it.
    Download,
    /// Look for the files the download installed.
    Verify,
    /// Record the mod as installed.
    Install,
}

/// What came back from running one stage of a mod.
#[derive(Debug)]
pub enum StageEvent<F> {
    /// The old files were removed (how many), or the removal failed (its description).
    Cleaned(Result<usize, String>),
    /// The wait for the download ended, with the download's failure if any.
    Downloaded(Option<String>),
    /// One look for the installed files was made, with its step.
    Looked(VerifyStep),
    /// The install ended.
    Installed(Result<InstalledModInfo<F>, String>),
}

/// What follows a stage: another stage, or the mod's outcome.
#[derive(Clone, Debug)]
pub enum NextStep<F> {
    Stage(ModStage),
    Done(ModOutcome<F>),
}

/// The stage a mod of a batch starts in: an update first removes the old files, an
/// import starts with the download.
pub open spec fn first_stage_spec(kind: BatchKind) -> ModStage {
    match kind {
        BatchKind::Update => ModStage::Clean,
        BatchKind::Import => ModStage::Download,
    }
}

/// The stage a mod of a batch starts in (see [`first_stage_spec`]).
pub fn first_stage(kind: BatchKind) -> (r: ModStage)
    ensures
        r == first_stage_spec(kind),
{
    match kind {
        BatchKind::Update => ModStage::Clean,
        BatchKind::Import => ModStage::Download,
    }
}

/// The message of a failure to remove a mod's old files before its update.
pub open spec fn cleanup_message(detail: Seq<char>) -> Seq<char> {
    "Failed to remove old VPKs: "@ + detail
}

/// What follows a stage's event: a failed removal or download ends the mod as failed;
/// a look that found files leads to the install, one that failed ends the mod with
/// its message, one that gave up ends it with no files found, and one to be repeated
/// looks again; an install ends the mod as installed or failed. A removal or download
/// that went through leads on to the next stage.
pub fn next_step<F>(event: StageEvent<F>) -> (r: NextStep<F>)
    ensures
        match event {
            StageEvent::Cleaned(Err(d)) => r matches NextStep::Done(ModOutcome::Failed(m)) && m@
                == cleanup_message(d@),
            StageEvent::Cleaned(Ok(_)) => r == NextStep::<F>::Stage(ModStage::Download),
            StageEvent::Downloaded(Some(m)) => r matches NextStep::Done(ModOutcome::Failed(x)) && x
                == m,
            StageEvent::Downloaded(None) => r == NextStep::<F>::Stage(ModStage::Verify),
            StageEvent::Looked(VerifyStep::Found) => r == NextStep::<F>::Stage(ModStage::Install),
            StageEvent::Looked(VerifyStep::CheckFailed(m)) => r matches NextStep::Done(
                ModOutcome::Failed(x),
            ) && x == m,
            StageEvent::Looked(VerifyStep::GaveUp) => r matches NextStep::Done(ModOutcome::NoVpksFound),
            StageEvent::Looked(VerifyStep::RetryAfter(_)) => r == NextStep::<F>::Stage(ModStage::Verify),
            StageEvent::Installed(Ok(info)) => r matches NextStep::Done(ModOutcome::Installed(x)) && x
                == info,
            StageEvent::Installed(Err(m)) => r matches NextStep::Done(ModOutcome::Failed(x)) && x == m,
        },
{
    match event {
        StageEvent::Cleaned(Err(d)) => NextStep::Done(ModOutcome::Failed(cleanup_failure_message(d.as_str()))),
        StageEvent::Cleaned(Ok(_)) => NextStep::Stage(ModStage::Download),
        StageEvent::Downloaded(Some(m)) => NextStep::Done(ModOutcome::Failed(m)),
        StageEvent::Downloaded(None) => NextStep::Stage(ModStage::Verify),
        StageEvent::Looked(VerifyStep::Found) => NextStep::Stage(ModStage::Install),
        StageEvent::Looked(VerifyStep::CheckFailed(m)) => NextStep::Done(ModOutcome::Failed(m)),
        StageEvent::Looked(VerifyStep::GaveUp) => NextStep::Done(ModOutcome::NoVpksFound),
        StageEvent::Looked(VerifyStep::RetryAfter(_)) => NextStep::Stage(ModStage::Verify),
        StageEvent::Installed(Ok(info)) => NextStep::Done(ModOutcome::Installed(info)),
        StageEvent::Installed(Err(m)) => NextStep::Done(ModOutcome::Failed(m)),
    }
}

/// Whether a batch records a mod whose files were never found only when no failure is
/// recorded for its id: batch updates do, imports do not.
pub fn dedupes_missing(kind: BatchKind) -> (r: bool)
    ensures
        r == (kind == BatchKind::Update),
{
    match kind {
        BatchKind::Update => true,
        BatchKind::Import => false,
    }
}

/// Whether the installed files a batch update was handed are removed: only when
/// nothing else was removed for the mod and some were handed.
pub fn needs_provided_vpk_cleanup(prefixed_removed: usize, recorded_removed: usize, provided: usize) -> (r: bool)
    ensures
        r == (prefixed_removed == 0 && recorded_removed == 0 && provided > 0),
{
    prefixed_removed == 0 && recorded_removed == 0 && provided > 0
}

/// The message of a failure to remove a mod's old files before its update.
pub fn cleanup_failure_message(detail: &str) -> (r: String)
    ensures
        r@ == cleanup_message(detail@),
{
    concat("Failed to remove old VPKs: ", detail)
}

/// The error of a failed backup before an update.
pub fn backup_failure(detail: &str) -> (r: Error)
    ensures
        r matches Error::BackupCreationFailed(m) && m@ == "Failed to create backup before update: "@
            + detail@,
{
    Error::BackupCreationFailed(concat("Failed to create backup before update: ", detail))
}

/// Whether old backups are pruned after a new one: when a limit is set.
pub fn should_prune_backups(max_backups: u32) -> (r: bool)
    ensures
        r == (max_backups > 0),
{
    max_backups > 0
}

} // verus!
