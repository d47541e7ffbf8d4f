//! One download task: its record, its well-formedness invariant, and the
//! transitions of its status state machine.

use vstd::prelude::*;
use vstd::arithmetic::div_mod::lemma_div_is_ordered;
use vstd::arithmetic::div_mod::lemma_div_by_multiple;

verus! {

/// The lifecycle status of a download task.
#[derive(Clone, Copy, Debug, PartialEq, Eq, Structural)]
pub enum DownloadStatus {
    Queued,
    Downloading,
    Paused,
    Completed,
    Failed,
    Verifying,
    Retrying,
}

/// Progress in hundredths of a percent: `downloaded * 10000 / total` once the
/// total is known, 0 while it is not.
pub open spec fn progress_basis_points(downloaded: u64, total: u64) -> int {
    if total > 0 {
        downloaded * 10000 / total as int
    } else {
        0
    }
}

/// Executable counterpart of `progress_basis_points`.
pub fn compute_progress_bp(downloaded: u64, total: u64) -> (r: u64)
    requires
        total > 0 ==> downloaded <= total,
    ensures
        r == progress_basis_points(downloaded, total),
        r <= 10000,
{
    if total == 0 {
        0
    } else {
        let q: u128 = (downloaded as u128) * 10000 / (total as u128);
        proof {
            lemma_div_is_ordered(
                downloaded * 10000,
                total * 10000,
                total as int,
            );
            lemma_div_by_multiple(10000, total as int);
        }
        q as u64
    }
}

/// The attempt counter, bumped by one and capped at its type's maximum.
pub open spec fn bump_attempts(a: u8) -> u8 {
    if a < 255 {
        (a + 1) as u8
    } else {
        255
    }
}

/// One user-visible unit of work: a single download and its whole mutable
/// lifecycle record.
#[derive(Debug, PartialEq)]
pub struct DownloadTask {
    /// Opaque unique id, fixed at creation.
    pub id: String,
    /// Source URL.
    pub url: String,
    pub status: DownloadStatus,
    /// Progress in hundredths of a percent (0 ..= 10000).
    pub progress_bp: u64,
    pub file_name: String,
    /// Destination directory.
    pub save_path: String,
    /// Total size in bytes; 0 while unknown.
    pub total_size: u64,
    /// Bytes confirmed on disk so far.
    pub downloaded_size: u64,
    /// Sampled transfer rate, bytes per second.
    pub speed: u64,
    /// Estimated seconds remaining, when the rate and total allow an estimate.
    pub time_remaining: Option<u64>,
    /// Whether the server advertised byte-range support for this download.
    pub resume_capability: bool,
    /// Present exactly while the task is `Failed` or `Retrying`.
    pub error_message: Option<String>,
    /// Creation time, seconds since the Unix epoch.
    pub created_at: i64,
    /// Completion time; present exactly while the task is `Completed`.
    pub completed_at: Option<i64>,
    /// Classification derived from the file name's extension.
    pub file_type: String,
    /// Advisory per-task connection count; never used to split the transfer.
    pub connections: u8,
    /// Retry attempts consumed; neither the very first attempt nor a resume
    /// after a user's pause counts.
    pub resume_attempts: u8,
}

impl DownloadTask {
    /// The record's internal invariant, established at creation and preserved
    /// by every transition.
    pub open spec fn wf(self) -> bool {
        &&& self.total_size > 0 ==> self.downloaded_size <= self.total_size
        &&& self.progress_bp == progress_basis_points(self.downloaded_size, self.total_size)
        &&& (self.error_message is Some <==> (self.status is Failed || self.status is Retrying))
        &&& (self.completed_at is Some <==> self.status is Completed)
        &&& (self.status is Completed ==> self.downloaded_size == self.total_size
            && self.time_remaining is None)
        &&& ((self.status is Queued || self.status is Paused || self.status is Failed
            || self.status is Completed) ==> self.speed == 0)
    }

    /// A fresh record for a newly added download, in `Queued` state.
    pub fn new(
        id: String,
        url: String,
        file_name: String,
        save_path: String,
        total_size: u64,
        file_type: String,
        connections: u8,
        created_at: i64,
    ) -> (t: DownloadTask)
        ensures
            t.wf(),
            t.id == id,
            t.url == url,
            t.status is Queued,
            t.progress_bp == 0,
            t.file_name == file_name,
            t.save_path == save_path,
            t.total_size == total_size,
            t.downloaded_size == 0,
            t.speed == 0,
            t.time_remaining is None,
            !t.resume_capability,
            t.error_message is None,
            t.created_at == created_at,
            t.completed_at is None,
            t.file_type == file_type,
            t.connections == connections,
            t.resume_attempts == 0,
    {
        let progress_bp = compute_progress_bp(0, total_size);
        proof {
            if total_size > 0 {
                vstd::arithmetic::div_mod::lemma_div_of0(total_size as int);
            }
        }
        DownloadTask {
            id,
            url,
            status: DownloadStatus::Queued,
            progress_bp,
            file_name,
            save_path,
            total_size,
            downloaded_size: 0,
            speed: 0,
            time_remaining: None,
            resume_capability: false,
            error_message: None,
            created_at,
            completed_at: None,
            file_type,
            connections,
            resume_attempts: 0,
        }
    }

    /// Begin one transfer attempt: the task moves to `Downloading`. The
    /// attempt counter is bumped unless the task was freshly queued or
    /// explicitly paused — neither the very first attempt nor a resume after
    /// a user's pause counts against the retry budget.
    pub fn begin_attempt(&mut self)
        requires
            old(self).wf(),
        ensures
            final(self).wf(),
            final(self).status is Downloading,
            final(self).resume_attempts == if old(self).status is Queued || old(self).status
                is Paused {
                old(self).resume_attempts
            } else {
                bump_attempts(old(self).resume_attempts)
            },
            final(self).error_message is None,
            final(self).completed_at is None,
            *final(self) == (DownloadTask {
                status: final(self).status,
                resume_attempts: final(self).resume_attempts,
                error_message: final(self).error_message,
                completed_at: final(self).completed_at,
                ..*old(self)
            }),
    {
        match self.status {
            DownloadStatus::Queued => {},
            DownloadStatus::Paused => {},
            _ => {
                if self.resume_attempts < 255 {
                    self.resume_attempts = self.resume_attempts + 1;
                }
            },
        }
        self.status = DownloadStatus::Downloading;
        self.error_message = None;
        self.completed_at = None;
    }

    /// Put the task back in the admission queue, clearing transient fields.
    pub fn mark_queued(&mut self)
        requires
            old(self).wf(),
        ensures
            final(self).wf(),
            final(self).status is Queued,
            final(self).speed == 0,
            final(self).time_remaining is None,
            final(self).error_message is None,
            final(self).completed_at is None,
            final(self).downloaded_size == old(self).downloaded_size,
            *final(self) == (DownloadTask {
                status: final(self).status,
                speed: final(self).speed,
                time_remaining: final(self).time_remaining,
                error_message: final(self).error_message,
                completed_at: final(self).completed_at,
                ..*old(self)
            }),
    {
        self.status = DownloadStatus::Queued;
        self.speed = 0;
        self.time_remaining = None;
        self.error_message = None;
        self.completed_at = None;
    }

    /// Pause: the rate is zeroed and the downloaded bytes stay for a later
    /// resume.
    pub fn mark_paused(&mut self)
        requires
            old(self).wf(),
        ensures
            final(self).wf(),
            final(self).status is Paused,
            final(self).speed == 0,
            final(self).time_remaining is None,
            final(self).downloaded_size == old(self).downloaded_size,
            final(self).resume_attempts == old(self).resume_attempts,
            *final(self) == (DownloadTask {
                status: final(self).status,
                speed: final(self).speed,
                time_remaining: final(self).time_remaining,
                error_message: None,
                completed_at: None,
                ..*old(self)
            }),
    {
        self.status = DownloadStatus::Paused;
        self.speed = 0;
        self.time_remaining = None;
        self.error_message = None;
        self.completed_at = None;
    }

    /// Terminal failure: the message is recorded and the rate zeroed.
    pub fn mark_failed(&mut self, message: String)
        requires
            old(self).wf(),
        ensures
            final(self).wf(),
            final(self).status is Failed,
            final(self).error_message == Some(message),
            final(self).speed == 0,
            *final(self) == (DownloadTask {
                status: final(self).status,
                error_message: final(self).error_message,
                speed: final(self).speed,
                time_remaining: None,
                completed_at: None,
                ..*old(self)
            }),
    {
        self.status = DownloadStatus::Failed;
        self.error_message = Some(message);
        self.speed = 0;
        self.time_remaining = None;
        self.completed_at = None;
    }

    /// A transient failure: the task waits for the backoff delay with the
    /// given diagnostic message.
    pub fn mark_retrying(&mut self, message: String)
        requires
            old(self).wf(),
        ensures
            final(self).wf(),
            final(self).status is Retrying,
            final(self).error_message == Some(message),
            *final(self) == (DownloadTask {
                status: final(self).status,
                error_message: final(self).error_message,
                completed_at: None,
                ..*old(self)
            }),
    {
        self.status = DownloadStatus::Retrying;
        self.error_message = Some(message);
        self.completed_at = None;
    }

    /// The stream is exhausted; the size on disk is about to be checked.
    pub fn mark_verifying(&mut self)
        requires
            old(self).wf(),
        ensures
            final(self).wf(),
            final(self).status is Verifying,
            *final(self) == (DownloadTask {
                status: final(self).status,
                error_message: None,
                completed_at: None,
                ..*old(self)
            }),
    {
        self.status = DownloadStatus::Verifying;
        self.error_message = None;
        self.completed_at = None;
    }

    /// Terminal success: the downloaded bytes equal the total, progress is
    /// complete, and the completion time is recorded.
    pub fn mark_completed(&mut self, now: i64)
        requires
            old(self).wf(),
        ensures
            final(self).wf(),
            final(self).status is Completed,
            final(self).downloaded_size == old(self).total_size,
            final(self).progress_bp == if old(self).total_size > 0 {
                10000int
            } else {
                0int
            },
            final(self).speed == 0,
            final(self).completed_at == Some(now),
            *final(self) == (DownloadTask {
                status: final(self).status,
                downloaded_size: final(self).downloaded_size,
                progress_bp: final(self).progress_bp,
                speed: final(self).speed,
                time_remaining: None,
                error_message: None,
                completed_at: final(self).completed_at,
                ..*old(self)
            }),
    {
        self.status = DownloadStatus::Completed;
        self.downloaded_size = self.total_size;
        self.progress_bp = compute_progress_bp(self.total_size, self.total_size);
        proof {
            if self.total_size > 0 {
                lemma_div_by_multiple(10000, self.total_size as int);
            }
        }
        self.speed = 0;
        self.time_remaining = None;
        self.error_message = None;
        self.completed_at = Some(now);
    }

    /// At every observed snapshot of a well-formed task whose total size is
    /// known, the downloaded bytes never exceed the total.
    pub proof fn lemma_downloaded_within_total(self)
        requires
            self.wf(),
            self.total_size > 0,
        ensures
            self.downloaded_size <= self.total_size,
    {
    }

    /// Progress is the deterministic share of the total already downloaded,
    /// in hundredths of a percent, once the total is known — and reads zero
    /// while the total is unknown.
    pub proof fn lemma_progress_determined(self)
        requires
            self.wf(),
        ensures
            self.total_size > 0 ==> self.progress_bp == self.downloaded_size * 10000 / (
            self.total_size as int),
            self.total_size == 0 ==> self.progress_bp == 0,
    {
    }

    /// Duplicates the record.
    pub fn duplicate(&self) -> (t: DownloadTask)
        ensures
            t == *self,
    {
        DownloadTask {
            id: self.id.clone(),
            url: self.url.clone(),
            status: self.status,
            progress_bp: self.progress_bp,
            file_name: self.file_name.clone(),
            save_path: self.save_path.clone(),
            total_size: self.total_size,
            downloaded_size: self.downloaded_size,
            speed: self.speed,
            time_remaining: self.time_remaining,
            resume_capability: self.resume_capability,
            error_message: match &self.error_message {
                Some(m) => Some(m.clone()),
                None => None,
            },
            created_at: self.created_at,
            completed_at: self.completed_at,
            file_type: self.file_type.clone(),
            connections: self.connections,
            resume_attempts: self.resume_attempts,
        }
    }
}

} // verus!
