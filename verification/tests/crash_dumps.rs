use deadlock_mod_manager::crash_dumps::{
    dump_error, find_deadlock_crash_dumps, get_crash_dumps_info, is_deadlock_crash_dump,
    latest_crash_dump, modified_time_text, DumpFailure,
};
use deadlock_mod_manager::error::Error;
use deadlock_mod_manager::paths::DirEntryInfo;

fn dump(name: &str, is_file: bool, size: Option<u64>, modified: Option<(i64, u32)>) -> DirEntryInfo {
    DirEntryInfo {
        name: name.to_string(),
        path: format!("/g/game/bin/linuxsteamrt64/{name}"),
        is_file,
        size,
        modified,
    }
}

#[test]
fn crash_dump_names_ignore_case() {
    assert!(is_deadlock_crash_dump("deadlock_2024_01_01.mdmp"));
    assert!(is_deadlock_crash_dump("Deadlock-Crash.MDMP"));
    assert!(!is_deadlock_crash_dump("deadlock.dmp"));
    assert!(!is_deadlock_crash_dump("other.mdmp"));
}

#[test]
fn modification_times_print_in_utc() {
    assert_eq!(modified_time_text(Some((0, 0))), Some("1970-01-01 00:00:00".to_string()));
    assert_eq!(
        modified_time_text(Some((1_700_000_000, 5))),
        Some("2023-11-14 22:13:20".to_string())
    );
    assert_eq!(modified_time_text(None), None);
}

#[test]
fn dumps_are_listed_newest_first() {
    let entries = vec![
        dump("deadlock_a.mdmp", true, Some(10), Some((1_000, 0))),
        dump("deadlock_b.mdmp", true, None, None),
        dump("deadlock_c.mdmp", true, Some(30), Some((3_000, 0))),
        dump("notes.txt", true, Some(99), Some((5_000, 0))),
        dump("deadlock_dir.mdmp", false, Some(99), Some((6_000, 0))),
        dump("deadlock_d.mdmp", true, Some(20), Some((2_000, 0))),
    ];
    let files = find_deadlock_crash_dumps(&entries);
    let names: Vec<&str> = files.iter().map(|f| f.name.as_str()).collect();
    assert_eq!(
        names,
        vec!["deadlock_c.mdmp", "deadlock_d.mdmp", "deadlock_a.mdmp", "deadlock_b.mdmp"]
    );
    assert_eq!(files[3].size, 0);
    assert_eq!(files[3].modified, None);
    let info = get_crash_dumps_info("/g/game/bin/linuxsteamrt64".to_string(), true, &entries);
    assert!(info.exists);
    assert_eq!(info.total_count, 4);
    assert_eq!(info.total_size, 60);
    assert_eq!(info.files.len(), 4);
    let latest = latest_crash_dump(&info.files).unwrap();
    assert_eq!(latest.name, "deadlock_c.mdmp");
}

#[test]
fn missing_dump_directory_has_no_dumps() {
    let entries = vec![dump("deadlock_a.mdmp", true, Some(10), None)];
    let info = get_crash_dumps_info("/nowhere".to_string(), false, &entries);
    assert!(!info.exists);
    assert_eq!(info.total_count, 0);
    assert_eq!(info.total_size, 0);
    assert_eq!(info.path, "/nowhere");
    assert_eq!(
        latest_crash_dump(&info.files).err(),
        Some(Error::InvalidInput("No Deadlock crash dumps found".to_string()))
    );
}

#[test]
fn dump_failure_messages() {
    assert_eq!(
        dump_error(DumpFailure::FolderMissing, ""),
        Error::InvalidInput(
            "Crash dumps directory does not exist. Game may not have crashed yet.".to_string()
        )
    );
    assert_eq!(
        dump_error(DumpFailure::DirectoryMissing, ""),
        Error::InvalidInput("Crash dumps directory does not exist".to_string())
    );
    assert_eq!(
        dump_error(DumpFailure::FileNotFound, "/x.mdmp"),
        Error::InvalidInput("File not found: /x.mdmp".to_string())
    );
    assert_eq!(
        dump_error(DumpFailure::ParseFailed, "bad"),
        Error::InvalidInput("Failed to parse crash dump: bad".to_string())
    );
    assert_eq!(
        dump_error(DumpFailure::CreateParsedFolder, "denied"),
        Error::InvalidInput("Failed to create parsed folder: denied".to_string())
    );
    assert_eq!(
        dump_error(DumpFailure::WriteParsed, "full"),
        Error::InvalidInput("Failed to write parsed output: full".to_string())
    );
}

#[test]
fn dumps_of_equal_time_keep_listing_order() {
    let entries = vec![
        dump("deadlock_x.mdmp", true, Some(1), None),
        dump("deadlock_p.mdmp", true, Some(2), Some((500, 0))),
        dump("deadlock_y.mdmp", true, Some(3), None),
        dump("deadlock_q.mdmp", true, Some(4), Some((500, 0))),
        dump("deadlock_r.mdmp", true, Some(5), Some((900, 0))),
    ];
    let files = find_deadlock_crash_dumps(&entries);
    let names: Vec<&str> = files.iter().map(|f| f.name.as_str()).collect();
    assert_eq!(
        names,
        vec!["deadlock_r.mdmp", "deadlock_p.mdmp", "deadlock_q.mdmp", "deadlock_x.mdmp", "deadlock_y.mdmp"]
    );
}
