use deadlock_mod_manager::downloader::{transfer_error, url_host, TransferFailure, TransferProgress};
use deadlock_mod_manager::error::Error;

#[test]
fn host_is_third_slash_piece() {
    assert_eq!(url_host("https://cdn.example.com/files/a.zip"), "cdn.example.com");
    assert_eq!(url_host("https://httpbin.org/bytes/1024"), "httpbin.org");
    assert_eq!(url_host("no-slashes"), "unknown");
    assert_eq!(url_host("a/b"), "unknown");
    assert_eq!(url_host("a//"), "");
}

#[test]
fn progress_is_throttled_unless_complete() {
    let mut t = TransferProgress::new(Some(1000), 0);
    assert!(!t.record_chunk(100, 100));
    assert!(!t.record_chunk(100, 499));
    assert!(t.record_chunk(100, 500));
    assert!(!t.record_chunk(100, 900));
    assert!(t.record_chunk(600, 950));
    assert_eq!(t.downloaded(), 1000);
    assert_eq!(t.total_size(), 1000);
}

#[test]
fn unknown_size_is_never_complete() {
    let mut t = TransferProgress::new(None, 1000);
    assert_eq!(t.total_size(), 0);
    assert!(!t.record_chunk(5, 1200));
    assert!(!t.record_chunk(5, 10));
    assert!(t.record_chunk(5, 1500));
}

#[test]
fn cancellation_stops_transfer() {
    assert_eq!(
        TransferProgress::check_cancelled(true),
        Err(Error::DownloadCancelled)
    );
    assert_eq!(TransferProgress::check_cancelled(false), Ok(()));
}

#[test]
fn transfer_failures_become_errors() {
    assert_eq!(
        transfer_error(TransferFailure::SendRequest, "dns"),
        Error::Network("Failed to send request: dns".to_string())
    );
    assert_eq!(
        transfer_error(TransferFailure::ErrorStatus, "404 Not Found"),
        Error::Network("Server returned error status: 404 Not Found".to_string())
    );
    assert_eq!(
        transfer_error(TransferFailure::CreateDir, "denied"),
        Error::Io("denied".to_string())
    );
    assert_eq!(
        transfer_error(TransferFailure::CreateFile, "x"),
        Error::FileWriteFailed("Failed to create file: x".to_string())
    );
    assert_eq!(
        transfer_error(TransferFailure::ReadChunk, "reset"),
        Error::Network("Failed to read chunk: reset".to_string())
    );
    assert_eq!(
        transfer_error(TransferFailure::WriteFile, "full"),
        Error::FileWriteFailed("Failed to write to file: full".to_string())
    );
    assert_eq!(
        transfer_error(TransferFailure::FlushFile, "io"),
        Error::FileWriteFailed("Failed to flush file: io".to_string())
    );
}
