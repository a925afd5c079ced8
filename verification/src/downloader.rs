//! The decisions of a single file's transfer: when it stops, what failed, and when
//! progress is reported.
use vstd::prelude::*;

use crate::error::Error;
use crate::text::{concat, split_char, split_on};

verus! {

/// Progress is reported at most this often (milliseconds), and when the file is complete.
pub const PROGRESS_THROTTLE_MS: u128 = 500;

/// The host part of a URL as the transfer logs it: the third `/`-separated piece,
/// or `unknown`.
pub open spec fn url_host_spec(url: Seq<char>) -> Seq<char> {
    let pieces = split_on(url, '/');
    if pieces.len() > 2 {
        pieces[2]
    } else {
        "unknown"@
    }
}

/// The host part of `url` (`url.split('/').nth(2).unwrap_or("unknown")`).
pub fn url_host(url: &str) -> (r: String)
    ensures
        r@ == url_host_spec(url@),
{
    let pieces = split_char(url, '/');
    if pieces.len() > 2 {
        pieces[2].clone()
    } else {
        "unknown".to_owned()
    }
}

/// The steps of a transfer that can fail on the outside.
#[derive(Clone, Copy, Debug, PartialEq, Eq)]
pub enum TransferFailure {
    /// The request could not be sent.
    SendRequest,
    /// The server answered with a status other than success.
    ErrorStatus,
    /// The target's directory could not be created.
    CreateDir,
    /// The target file could not be created.
    CreateFile,
    /// A chunk of the body could not be read.
    ReadChunk,
    /// A chunk could not be written.
    WriteFile,
    /// The file could not be flushed.
    FlushFile,
}

/// The error a failed step is reported as, given the failure's own message.
pub open spec fn transfer_error_spec(step: TransferFailure, detail: Seq<char>, e: Error) -> bool {
    match step {
        TransferFailure::SendRequest => e matches Error::Network(m) && m@
            == "Failed to send request: "@ + detail,
        TransferFailure::ErrorStatus => e matches Error::Network(m) && m@
            == "Server returned error status: "@ + detail,
        TransferFailure::CreateDir => e matches Error::Io(m) && m@ == detail,
        TransferFailure::CreateFile => e matches Error::FileWriteFailed(m) && m@
            == "Failed to create file: "@ + detail,
        TransferFailure::ReadChunk => e matches Error::Network(m) && m@ == "Failed to read chunk: "@
            + detail,
        TransferFailure::WriteFile => e matches Error::FileWriteFailed(m) && m@
            == "Failed to write to file: "@ + detail,
        TransferFailure::FlushFile => e matches Error::FileWriteFailed(m) && m@
            == "Failed to flush file: "@ + detail,
    }
}

/// The error that a failed step of a transfer is reported as.
pub fn transfer_error(step: TransferFailure, detail: &str) -> (r: Error)
    ensures
        transfer_error_spec(step, detail@, r),
{
    match step {
        TransferFailure::SendRequest => Error::Network(concat("Failed to send request: ", detail)),
        TransferFailure::ErrorStatus => Error::Network(
            concat("Server returned error status: ", detail),
        ),
        TransferFailure::CreateDir => Error::Io(detail.to_owned()),
        TransferFailure::CreateFile => Error::FileWriteFailed(
            concat("Failed to create file: ", detail),
        ),
        TransferFailure::ReadChunk => Error::Network(concat("Failed to read chunk: ", detail)),
        TransferFailure::WriteFile => Error::FileWriteFailed(
            concat("Failed to write to file: ", detail),
        ),
        TransferFailure::FlushFile => Error::FileWriteFailed(
            concat("Failed to flush file: ", detail),
        ),
    }
}

/// The running count of a transfer and the time of its last progress report.
pub struct TransferProgress {
    downloaded: u64,
    total_size: u64,
    last_report_ms: u128,
}

impl TransferProgress {
    /// Bytes written so far.
    pub closed spec fn downloaded_spec(self) -> int {
        self.downloaded as int
    }

    /// The announced size (0 when the server announced none).
    pub closed spec fn total_size_spec(self) -> int {
        self.total_size as int
    }

    /// When progress was last reported (or the transfer began), in milliseconds.
    pub closed spec fn last_report_spec(self) -> int {
        self.last_report_ms as int
    }

    /// A transfer beginning at `now_ms` whose announced length is `content_length`.
    pub fn new(content_length: Option<u64>, now_ms: u128) -> (r: Self)
        ensures
            r.downloaded_spec() == 0,
            r.total_size_spec() == match content_length {
                Some(n) => n as int,
                None => 0,
            },
            r.last_report_spec() == now_ms,
    {
        let total_size: u64 = match content_length {
            Some(n) => n,
            None => 0,
        };
        TransferProgress { downloaded: 0, total_size, last_report_ms: now_ms }
    }

    /// Bytes written so far.
    pub fn downloaded(&self) -> (r: u64)
        ensures
            r == self.downloaded_spec(),
    {
        self.downloaded
    }

    /// The announced size (0 when none).
    pub fn total_size(&self) -> (r: u64)
        ensures
            r == self.total_size_spec(),
    {
        self.total_size
    }

    /// A chunk arrived: the transfer stops with [`Error::DownloadCancelled`] if it was
    /// cancelled, and goes on otherwise.
    pub fn check_cancelled(cancelled: bool) -> (r: Result<(), Error>)
        ensures
            cancelled <==> r == Err::<(), Error>(Error::DownloadCancelled),
            !cancelled <==> r is Ok,
    {
        if cancelled {
            Err(Error::DownloadCancelled)
        } else {
            Ok(())
        }
    }

    /// A chunk of `len` bytes was written at `now_ms`. Returns whether progress is
    /// reported now: when the announced size is reached, or when at least
    /// [`PROGRESS_THROTTLE_MS`] passed since the last report (time never runs back).
    pub fn record_chunk(&mut self, len: u64, now_ms: u128) -> (report: bool)
        requires
            old(self).downloaded_spec() + len <= u64::MAX,
        ensures
            final(self).downloaded_spec() == old(self).downloaded_spec() + len,
            final(self).total_size_spec() == old(self).total_size_spec(),
            report == ((final(self).total_size_spec() > 0 && final(self).downloaded_spec()
                >= final(self).total_size_spec()) || (if now_ms >= old(self).last_report_spec() {
                now_ms - old(self).last_report_spec()
            } else {
                0
            }) >= PROGRESS_THROTTLE_MS),
            report ==> final(self).last_report_spec() == now_ms,
            !report ==> final(self).last_report_spec() == old(self).last_report_spec(),
    {
        self.downloaded = self.downloaded + len;
        let elapsed: u128 = if now_ms >= self.last_report_ms {
            now_ms - self.last_report_ms
        } else {
            0
        };
        let is_complete = self.total_size > 0 && self.downloaded >= self.total_size;
        if is_complete || elapsed >= PROGRESS_THROTTLE_MS {
            self.last_report_ms = now_ms;
            true
        } else {
            false
        }
    }
}

} // verus!
