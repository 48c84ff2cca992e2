//! What is known of one download, and what its end means to a waiting caller.

use crate::error::Error;
use crate::text::joined;
use vstd::prelude::*;

verus! {

/// The state of a download.
#[derive(Debug, Clone, Copy, PartialEq, Eq, Structural)]
pub enum DownloadStatus {
    /// Submitted but not yet reported by aria2.
    Pending,
    Active,
    Waiting,
    Paused,
    Complete,
    Error,
    Removed,
}

impl DownloadStatus {
    /// The states that a download never leaves.
    pub open spec fn is_final(self) -> bool {
        self is Complete || self is Error || self is Removed
    }
}

/// One report on a download.
#[derive(Debug)]
pub struct DownloadProgress {
    pub gid: String,
    pub status: DownloadStatus,
    /// Total size in bytes (0 if unknown).
    pub total_length: u64,
    /// Bytes downloaded so far.
    pub completed_length: u64,
    /// Current download speed in bytes/s.
    pub download_speed: u64,
    /// Current upload speed in bytes/s.
    pub upload_speed: u64,
    /// Error description, if any.
    pub error_message: Option<String>,
}

/// The contents of a [`DownloadProgress`].
pub struct ProgressView {
    pub gid: Seq<char>,
    pub status: DownloadStatus,
    pub total_length: u64,
    pub completed_length: u64,
    pub download_speed: u64,
    pub upload_speed: u64,
    pub error_message: Option<Seq<char>>,
}

/// The contents of an optional string.
pub open spec fn optional_text(text: Option<String>) -> Option<Seq<char>> {
    match text {
        Some(s) => Some(s@),
        None => None,
    }
}

impl View for DownloadProgress {
    type V = ProgressView;

    open spec fn view(&self) -> ProgressView {
        ProgressView {
            gid: self.gid@,
            status: self.status,
            total_length: self.total_length,
            completed_length: self.completed_length,
            download_speed: self.download_speed,
            upload_speed: self.upload_speed,
            error_message: optional_text(self.error_message),
        }
    }
}

impl ProgressView {
    /// A report that says nothing: no bytes, no speed, no error.
    pub open spec fn blank(gid: Seq<char>, status: DownloadStatus) -> ProgressView {
        ProgressView {
            gid,
            status,
            total_length: 0,
            completed_length: 0,
            download_speed: 0,
            upload_speed: 0,
            error_message: None,
        }
    }

    /// What a download is before aria2 has reported on it.
    pub open spec fn pending(gid: Seq<char>) -> ProgressView {
        ProgressView::blank(gid, DownloadStatus::Pending)
    }

    /// What a download becomes when it is given up on.
    pub open spec fn failed(gid: Seq<char>, message: Seq<char>) -> ProgressView {
        ProgressView {
            error_message: Some(message),
            ..ProgressView::blank(gid, DownloadStatus::Error)
        }
    }

    /// Whether this report is the last one on its download.
    pub open spec fn finished(self) -> bool {
        self.status.is_final()
    }

    /// The error text, empty where there is none.
    pub open spec fn failure_text(self) -> Seq<char> {
        match self.error_message {
            Some(message) => message,
            None => Seq::empty(),
        }
    }
}

/// What a download becomes when its status can no longer be queried.
pub open spec fn contact_lost(gid: Seq<char>, detail: Seq<char>) -> ProgressView {
    ProgressView::failed(gid, "lost contact with aria2c: "@ + detail)
}

impl DownloadProgress {
    /// True once the download is complete, failed or removed.
    pub fn is_finished(&self) -> (finished: bool)
        ensures
            finished == self@.finished(),
    {
        matches!(
            self.status,
            DownloadStatus::Complete | DownloadStatus::Error | DownloadStatus::Removed
        )
    }

    /// How much of the download has arrived, as `(done, total)` with `done`
    /// never above `total`; `None` while the total is unknown.
    pub fn transferred(&self) -> (fraction: Option<(u64, u64)>)
        ensures
            self.total_length == 0 ==> fraction is None,
            self.total_length > 0 ==> fraction == Some(
                (
                    if self.completed_length <= self.total_length {
                        self.completed_length
                    } else {
                        self.total_length
                    },
                    self.total_length,
                ),
            ),
    {
        if self.total_length == 0 {
            None
        } else if self.completed_length <= self.total_length {
            Some((self.completed_length, self.total_length))
        } else {
            Some((self.total_length, self.total_length))
        }
    }

    /// The report on a download that aria2 has accepted and not yet spoken of.
    pub fn pending(gid: String) -> (progress: DownloadProgress)
        ensures
            progress@ == ProgressView::pending(gid@),
    {
        let mut progress = DownloadProgress::default();
        progress.gid = gid;
        progress
    }

    /// The report on a download that is given up on.
    pub fn failed(gid: String, message: String) -> (progress: DownloadProgress)
        ensures
            progress@ == ProgressView::failed(gid@, message@),
    {
        let mut progress = DownloadProgress::default();
        progress.gid = gid;
        progress.status = DownloadStatus::Error;
        progress.error_message = Some(message);
        progress
    }

    /// The report on a download whose status query failed with `detail`.
    pub fn contact_lost(gid: String, detail: &str) -> (progress: DownloadProgress)
        ensures
            progress@ == contact_lost(gid@, detail@),
    {
        DownloadProgress::failed(gid, joined("lost contact with aria2c: ", detail))
    }
}

impl Clone for DownloadProgress {
    fn clone(&self) -> (copy: DownloadProgress)
        ensures
            copy@ == self@,
    {
        DownloadProgress {
            gid: self.gid.clone(),
            status: self.status,
            total_length: self.total_length,
            completed_length: self.completed_length,
            download_speed: self.download_speed,
            upload_speed: self.upload_speed,
            error_message: match &self.error_message {
                Some(message) => Some(message.clone()),
                None => None,
            },
        }
    }
}

impl Default for DownloadProgress {
    fn default() -> (progress: DownloadProgress)
        ensures
            progress@ == ProgressView::pending(Seq::empty()),
    {
        DownloadProgress {
            gid: String::new(),
            status: DownloadStatus::Pending,
            total_length: 0,
            completed_length: 0,
            download_speed: 0,
            upload_speed: 0,
            error_message: None,
        }
    }
}

/// What the last report on a download means to a caller waiting for it:
/// [`Error::DownloadFailed`] for aria2's error state, the report otherwise.
pub fn finish_result(progress: DownloadProgress) -> (result: Result<DownloadProgress, Error>)
    ensures
        is_finish_of(result, progress),
{
    if progress.status == DownloadStatus::Error {
        let message = match progress.error_message {
            Some(message) => message,
            None => String::new(),
        };
        Err(Error::DownloadFailed { gid: progress.gid, message })
    } else {
        Ok(progress)
    }
}

/// `result` is what a caller waiting for a download gets when `progress` is
/// the last report on it.
pub open spec fn is_finish_of(
    result: Result<DownloadProgress, Error>,
    progress: DownloadProgress,
) -> bool {
    if progress.status is Error {
        result matches Err(Error::DownloadFailed { gid, message }) && gid@ == progress@.gid
            && message@ == progress@.failure_text()
    } else {
        result == Ok::<DownloadProgress, Error>(progress)
    }
}

} // verus!
