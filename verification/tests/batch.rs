use deadlock_mod_manager::batch::{
    backup_failure, cleanup_failure_message, download_finished, download_wait_failure,
    dedupes_missing, first_stage, import_profile_id, is_create_import, keep_waiting,
    needs_provided_vpk_cleanup, next_step, profile_folder_option, require_mods,
    should_prune_backups, status_check_failure, BatchKind, BatchReport, InstalledModInfo,
    ModOutcome, ModStage, NextStep, StageEvent, VerifyStep, VpkVerifier,
};
use deadlock_mod_manager::error::Error;

fn info(id: &str) -> InstalledModInfo<()> {
    InstalledModInfo {
        mod_id: id.to_string(),
        mod_name: format!("Mod {id}"),
        installed_vpks: vec![format!("pak01_{id}.vpk")],
        file_tree: None,
    }
}

#[test]
fn batches_need_mods() {
    assert_eq!(
        require_mods(0, BatchKind::Import),
        Err(Error::InvalidInput("No mods provided for import".to_string()))
    );
    assert_eq!(
        require_mods(0, BatchKind::Update),
        Err(Error::InvalidInput("No mods provided for update".to_string()))
    );
    assert_eq!(require_mods(2, BatchKind::Import), Ok(()));
}

#[test]
fn created_profile_ids() {
    assert_eq!(import_profile_id(1700000000123, 255), "profile_1700000000123_ff");
    assert_eq!(import_profile_id(5, 0), "profile_5_0");
    assert_eq!(
        import_profile_id(1, 4_294_967_295),
        "profile_1_ffffffff"
    );
    assert!(is_create_import("create"));
    assert!(!is_create_import("override"));
}

#[test]
fn waiting_for_a_download() {
    assert!(keep_waiting(false, 0));
    assert!(!keep_waiting(true, 0));
    assert!(!keep_waiting(false, 600_000));
    assert!(download_finished(None));
    assert!(download_finished(Some("done")));
    assert!(!download_finished(Some("downloading")));
    assert_eq!(download_wait_failure(true, None), None);
    assert_eq!(
        download_wait_failure(false, None),
        Some("Download timeout".to_string())
    );
    assert_eq!(
        download_wait_failure(false, Some("e".to_string())),
        Some("e".to_string())
    );
    assert_eq!(
        status_check_failure("Io(..)"),
        "Failed to check download status: Io(..)"
    );
}

#[test]
fn verifier_backs_off_and_gives_up_after_ten_looks() {
    let mut v = VpkVerifier::new();
    let mut delays = Vec::new();
    loop {
        match v.on_check(Ok(0)) {
            VerifyStep::RetryAfter(d) => delays.push(d),
            VerifyStep::GaveUp => break,
            other => panic!("unexpected {:?}", other),
        }
    }
    assert_eq!(delays, vec![100, 200, 400, 800, 1000, 1000, 1000, 1000, 1000]);
    let mut w = VpkVerifier::new();
    assert_eq!(w.on_check(Ok(0)), VerifyStep::RetryAfter(100));
    assert_eq!(w.on_check(Ok(2)), VerifyStep::Found);
    let mut x = VpkVerifier::new();
    assert_eq!(
        x.on_check(Err("Io".to_string())),
        VerifyStep::CheckFailed("Failed to verify download: Io".to_string())
    );
}

#[test]
fn each_mod_goes_through_its_stages() {
    assert_eq!(first_stage(BatchKind::Update), ModStage::Clean);
    assert_eq!(first_stage(BatchKind::Import), ModStage::Download);
    assert!(dedupes_missing(BatchKind::Update));
    assert!(!dedupes_missing(BatchKind::Import));
    assert!(matches!(next_step::<()>(StageEvent::Cleaned(Ok(2))), NextStep::Stage(ModStage::Download)));
    assert!(matches!(
        next_step::<()>(StageEvent::Cleaned(Err("denied".to_string()))),
        NextStep::Done(ModOutcome::Failed(m)) if m == "Failed to remove old VPKs: denied"
    ));
    assert!(matches!(next_step::<()>(StageEvent::Downloaded(None)), NextStep::Stage(ModStage::Verify)));
    assert!(matches!(
        next_step::<()>(StageEvent::Downloaded(Some("Download timeout".to_string()))),
        NextStep::Done(ModOutcome::Failed(m)) if m == "Download timeout"
    ));
    assert!(matches!(next_step::<()>(StageEvent::Looked(VerifyStep::Found)), NextStep::Stage(ModStage::Install)));
    assert!(matches!(
        next_step::<()>(StageEvent::Looked(VerifyStep::RetryAfter(200))),
        NextStep::Stage(ModStage::Verify)
    ));
    assert!(matches!(
        next_step::<()>(StageEvent::Looked(VerifyStep::GaveUp)),
        NextStep::Done(ModOutcome::NoVpksFound)
    ));
    assert!(matches!(
        next_step::<()>(StageEvent::Looked(VerifyStep::CheckFailed("Failed to verify download: x".to_string()))),
        NextStep::Done(ModOutcome::Failed(m)) if m == "Failed to verify download: x"
    ));
    assert!(matches!(
        next_step::<()>(StageEvent::Installed(Ok(info("a")))),
        NextStep::Done(ModOutcome::Installed(i)) if i.mod_id == "a"
    ));
    assert!(matches!(
        next_step::<()>(StageEvent::Installed(Err("locked".to_string()))),
        NextStep::Done(ModOutcome::Failed(m)) if m == "locked"
    ));
}

#[test]
fn report_records_each_mod_once() {
    let mut r: BatchReport<()> = BatchReport::new();
    r.record("a", ModOutcome::Installed(info("a")), false);
    r.record("b", ModOutcome::Failed("Download timeout".to_string()), false);
    r.record("c", ModOutcome::NoVpksFound, false);
    let res = r.into_import_result("profile_1_x".to_string());
    assert_eq!(res.profile_folder, "profile_1_x");
    assert_eq!(res.succeeded, vec!["a".to_string()]);
    assert_eq!(
        res.failed,
        vec![
            ("b".to_string(), "Download timeout".to_string()),
            (
                "c".to_string(),
                "Download completed but no VPKs found".to_string()
            ),
        ]
    );
    assert_eq!(res.installed_mods.len(), 1);
    assert_eq!(res.installed_mods[0].installed_vpks, vec!["pak01_a.vpk"]);
}

#[test]
fn update_report_does_not_fail_a_mod_twice() {
    let mut r: BatchReport<()> = BatchReport::new();
    r.record("a", ModOutcome::Failed("Failed to verify download: x".to_string()), true);
    r.record("a", ModOutcome::NoVpksFound, true);
    r.record("b", ModOutcome::NoVpksFound, true);
    let res = r.into_update_result("addons_backup.zip".to_string());
    assert_eq!(res.backup_name, "addons_backup.zip");
    assert_eq!(res.failed.len(), 2);
    assert_eq!(res.failed[0].0, "a");
    assert_eq!(res.failed[1].0, "b");
    assert!(res.succeeded.is_empty());
}

#[test]
fn update_helpers() {
    assert_eq!(profile_folder_option(""), None);
    assert_eq!(profile_folder_option("p"), Some("p".to_string()));
    assert!(needs_provided_vpk_cleanup(0, 0, 2));
    assert!(!needs_provided_vpk_cleanup(1, 0, 2));
    assert!(!needs_provided_vpk_cleanup(0, 0, 0));
    assert_eq!(
        cleanup_failure_message("Io"),
        "Failed to remove old VPKs: Io"
    );
    assert_eq!(
        backup_failure("Zip"),
        Error::BackupCreationFailed("Failed to create backup before update: Zip".to_string())
    );
    assert!(should_prune_backups(3));
    assert!(!should_prune_backups(0));
}
