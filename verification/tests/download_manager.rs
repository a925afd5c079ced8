use deadlock_mod_manager::download_manager::{DownloadFileDto, DownloadManager, DownloadTask};
use deadlock_mod_manager::error::Error;

fn task(id: &str) -> DownloadTask<()> {
    DownloadTask {
        mod_id: id.to_string(),
        files: vec![DownloadFileDto {
            url: format!("https://files.example/{id}.zip"),
            name: format!("{id}.zip"),
            size: 10,
        }],
        target_dir: format!("/data/mods/{id}"),
        profile_folder: None,
        is_profile_import: false,
        file_tree: None,
    }
}

type Manager = DownloadManager<(), u32, (u64, u64)>;

#[test]
fn queued_tasks_start_in_order_up_to_the_limit() {
    let mut m: Manager = DownloadManager::new();
    for id in ["a", "b", "c", "d", "e"] {
        assert!(m.queue_download(task(id)).is_ok());
    }
    let started = m.dispatch_from();
    let ids: Vec<&str> = started.iter().map(|t| t.mod_id.as_str()).collect();
    assert_eq!(ids, vec!["a", "b", "c"]);
    assert!(m.dispatch_from().is_empty());
    m.release_permit();
    let next = m.dispatch_from();
    assert_eq!(next.len(), 1);
    assert_eq!(next[0].mod_id, "d");
}

#[test]
fn dispatch_with_empty_queue_keeps_permits() {
    let mut m: Manager = DownloadManager::new();
    assert!(m.dispatch_from().is_empty());
    for id in ["a", "b", "c", "d"] {
        m.queue_download(task(id)).unwrap();
    }
    assert_eq!(m.dispatch_from().len(), 3);
}

#[test]
fn lowering_the_limit_holds_for_new_downloads() {
    let mut m: Manager = DownloadManager::new();
    for id in ["a", "b", "c", "d", "e"] {
        m.queue_download(task(id)).unwrap();
    }
    assert_eq!(m.dispatch_from().len(), 3);
    assert!(!m.set_max_concurrent(1));
    assert_eq!(m.running_downloads(), 3);
    assert_eq!(m.available_permits(), 0);
    m.release_permit();
    assert!(m.dispatch_from().is_empty());
    m.release_permit();
    assert!(m.dispatch_from().is_empty());
    m.release_permit();
    assert_eq!(m.available_permits(), 1);
    let next = m.dispatch_from();
    assert_eq!(next.len(), 1);
    assert_eq!(next[0].mod_id, "d");
    assert!(m.dispatch_from().is_empty());
}

#[test]
fn maximum_is_clamped_and_raising_frees_permits() {
    let mut m: Manager = DownloadManager::new();
    assert!(!m.set_max_concurrent(0));
    assert_eq!(m.max_concurrent(), 1);
    assert!(m.set_max_concurrent(3));
    for i in 0..14 {
        m.queue_download(task(&format!("m{i}"))).unwrap();
    }
    assert_eq!(m.dispatch_from().len(), 3);
    assert!(m.set_max_concurrent(50));
    assert_eq!(m.max_concurrent(), 10);
    assert_eq!(m.dispatch_from().len(), 7);
    assert_eq!(m.running_downloads(), 10);
    assert!(!m.set_max_concurrent(2));
    for _ in 0..8 {
        m.release_permit();
        assert!(m.dispatch_from().is_empty());
    }
    m.release_permit();
    let last = m.dispatch_from();
    assert_eq!(last.len(), 1);
    assert_eq!(last[0].mod_id, "m10");
    assert_eq!(m.running_downloads(), 2);
}

#[test]
fn status_follows_register_update_and_finish() {
    let mut m: Manager = DownloadManager::new();
    assert!(m.get_download_status("x").unwrap().is_none());
    m.register_active_download("x".to_string(), 7, (0, 0));
    let s = m.get_download_status("x").unwrap().unwrap();
    assert_eq!(s.mod_id, "x");
    assert_eq!(s.status, "downloading");
    assert_eq!(s.metrics, (0, 0));
    assert!(m.update_progress("x", (50, 100)));
    assert!(!m.update_progress("y", (1, 1)));
    assert_eq!(m.get_download_status("x").unwrap().unwrap().metrics, (50, 100));
    m.finish_download("x");
    assert!(m.get_download_status("x").unwrap().is_none());
}

#[test]
fn cancel_hands_back_the_token_once() {
    let mut m: Manager = DownloadManager::new();
    m.register_active_download("x".to_string(), 41, (0, 0));
    m.register_active_download("x".to_string(), 42, (0, 0));
    assert_eq!(m.cancel_download("x"), Ok(42));
    assert_eq!(
        m.cancel_download("x"),
        Err(Error::InvalidInput(
            "No active download found for mod: x".to_string()
        ))
    );
}

#[test]
fn all_downloads_lists_each_mod_once() {
    let mut m: Manager = DownloadManager::new();
    m.register_active_download("a".to_string(), 1, (1, 2));
    m.register_active_download("b".to_string(), 2, (3, 4));
    m.register_active_download("a".to_string(), 3, (5, 6));
    let mut all = m.get_all_downloads().unwrap();
    all.sort_by(|p, q| p.mod_id.cmp(&q.mod_id));
    assert_eq!(all.len(), 2);
    assert_eq!(all[0].mod_id, "a");
    assert_eq!(all[0].metrics, (5, 6));
    assert_eq!(all[1].mod_id, "b");
    assert_eq!(all[1].status, "downloading");
}
