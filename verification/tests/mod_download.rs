use deadlock_mod_manager::download_manager::DownloadFileDto;
use deadlock_mod_manager::error::Error;
use deadlock_mod_manager::mod_download::{
    archive_display_name, check_selected_copy, collect_file_results, plan_extracted_archive,
    processing_failed_event, ArchivePlan, ProgressTally,
};

fn file(size: u64) -> DownloadFileDto {
    DownloadFileDto { url: "u".to_string(), name: "n".to_string(), size }
}

#[test]
fn tally_counts_one_file_against_all_sizes() {
    let files = vec![file(100), file(300)];
    let mut t = ProgressTally::new(&files);
    assert_eq!(t.record(1, 150), (150, 400));
    assert_eq!(t.record(1, 300), (300, 400));
    assert_eq!(t.record(0, 20), (320, 400));
}

#[test]
fn file_results_succeed_only_without_failures() {
    let ok = collect_file_results(vec![Ok("/a".to_string()), Ok("/b".to_string())]);
    assert_eq!(ok, Ok(vec!["/a".to_string(), "/b".to_string()]));
    let failed = collect_file_results(vec![
        Err("Network error: x".to_string()),
        Ok("/b".to_string()),
        Err("Download cancelled".to_string()),
    ]);
    assert_eq!(
        failed,
        Err(Error::DownloadFailed(
            "Network error: x; Download cancelled".to_string()
        ))
    );
    assert_eq!(collect_file_results(Vec::new()), Ok(Vec::new()));
}

#[test]
fn archive_plans() {
    assert_eq!(
        plan_extracted_archive(true, true, Some(true)),
        ArchivePlan::CopySelectedAndFinish
    );
    assert_eq!(
        plan_extracted_archive(true, false, Some(true)),
        ArchivePlan::KeepForLaterSelection
    );
    assert_eq!(
        plan_extracted_archive(false, true, Some(true)),
        ArchivePlan::OfferFileTree
    );
    assert_eq!(
        plan_extracted_archive(true, true, Some(false)),
        ArchivePlan::CopyAllAndContinue
    );
    assert_eq!(
        plan_extracted_archive(false, false, None),
        ArchivePlan::CopyAllAndContinue
    );
}

#[test]
fn selected_copy_needs_a_file() {
    assert_eq!(
        check_selected_copy(0),
        Err(Error::InvalidInput(
            "No VPKs matched the file tree selection".to_string()
        ))
    );
    assert_eq!(check_selected_copy(2), Ok(()));
}

#[test]
fn processing_failure_event_text() {
    let ev = processing_failed_event("m1", &Error::ModFileNotFound);
    assert_eq!(ev.mod_id, "m1");
    assert_eq!(ev.error, "Failed to process files: Mod file not found at path");
    assert_eq!(archive_display_name(None), "unknown");
    assert_eq!(archive_display_name(Some("a.zip".to_string())), "a.zip");
}
