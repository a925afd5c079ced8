use deadlock_mod_manager::error::Error;
use deadlock_mod_manager::ingest::{
    after_watch, at_loop_head, get_ingest_status, require_cache_dir, WatchNext, WatcherControl,
};

#[test]
fn watcher_starts_once_and_stops() {
    let mut w = WatcherControl::new();
    assert!(!w.is_running());
    assert_eq!(
        w.start_cache_watcher(false),
        Err(Error::InvalidInput("Could not find Steam cache directory".to_string()))
    );
    assert!(!w.is_running());
    assert_eq!(w.start_cache_watcher(true), Ok(Some(1)));
    assert!(w.is_running());
    assert_eq!(w.start_cache_watcher(true), Ok(None));
    w.stop_cache_watcher();
    assert!(!w.is_running());
    let status = get_ingest_status(&w, Some("/steam/cache".to_string()));
    assert!(!status.is_running);
    assert_eq!(status.cache_directory, Some("/steam/cache".to_string()));
}

#[test]
fn only_the_current_watcher_clears_the_flag() {
    let mut w = WatcherControl::new();
    let first = w.start_cache_watcher(true).unwrap().unwrap();
    w.stop_cache_watcher();
    let second = w.start_cache_watcher(true).unwrap().unwrap();
    assert_eq!(second, first + 1);
    w.on_watcher_exit(first, false);
    assert!(w.is_running());
    w.on_watcher_exit(second, true);
    assert!(w.is_running());
    w.on_watcher_exit(second, false);
    assert!(!w.is_running());
}

#[test]
fn initialization_path() {
    let mut w = WatcherControl::new();
    assert!(!w.should_initialize(false));
    assert!(w.should_initialize(true));
    let g = w.begin_initialized_watcher();
    assert_eq!(g, 1);
    assert!(w.is_running());
    assert!(!w.should_initialize(true));
    assert_eq!(require_cache_dir(true), Ok(()));
}

#[test]
fn watch_loop_steps() {
    assert_eq!(at_loop_head(true), None);
    assert_eq!(at_loop_head(false), Some(WatchNext::Exit { requested_stop: true }));
    assert_eq!(after_watch(true, false), WatchNext::Exit { requested_stop: false });
    assert_eq!(after_watch(false, false), WatchNext::Exit { requested_stop: true });
    assert_eq!(after_watch(false, true), WatchNext::Retry);
}

#[test]
fn a_stopped_watcher_reports_not_running() {
    let mut w = WatcherControl::new();
    assert_eq!(w.start_cache_watcher(true), Ok(Some(1)));
    w.stop_cache_watcher();
    w.on_watcher_exit(1, true);
    w.on_watcher_exit(1, false);
    w.stop_cache_watcher();
    let status = get_ingest_status(&w, Some("/steam/cache".to_string()));
    assert!(!status.is_running);
    assert_eq!(status.cache_directory, Some("/steam/cache".to_string()));
}
