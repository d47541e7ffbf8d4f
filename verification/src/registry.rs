//! The shared task registry: the authoritative collection of download tasks
//! and the settings, every mutation of which goes through the methods here.
//!
//! The registry keeps two invariants: every task record is well formed, and
//! no two tasks share an id. Engine-driven updates (progress, headers,
//! verification, completion, failure) apply only while the task is still in
//! the state the engine left it in, so a pause or cancel that intervenes
//! wins and a late engine update is ignored.
//!
//! What each mutation does is written down once, as an effect predicate
//! (`pause_effect`, `cancel_effect`, ...): the method here ensures it, and
//! the orchestrator's wrapper around the method ensures the same predicate.

use vstd::prelude::*;
use vstd::string::StringExecFns;
use crate::errors::DownloadError;
use crate::errors::message_spec;
use crate::policy::RetryDecision;
use crate::policy::classify_attempt_failure;
use crate::policy::classify_spec;
use crate::settings::AppSettings;
use crate::settings::is_default_settings;
use crate::task::DownloadStatus;
use crate::task::DownloadTask;
use crate::task::bump_attempts;
use crate::task::compute_progress_bp;
use crate::task::progress_basis_points;
use crate::text::dec_digits;
use crate::text::str_eq;
use crate::text::u64_to_dec;
use crate::transfer::AttemptSetup;
use crate::transfer::speed_spec;
use crate::transfer::verify_size;

verus! {

/// Statuses from which a new transfer attempt may begin: anything but a
/// completed task or one already being worked on.
pub open spec fn can_begin_attempt(s: DownloadStatus) -> bool {
    !(s is Completed || s is Downloading || s is Verifying)
}

/// Statuses in which an engine attempt is in flight, and its outcome is
/// still awaited.
pub open spec fn attempt_in_flight(s: DownloadStatus) -> bool {
    s is Downloading || s is Verifying
}

/// The diagnostic message a task shows while it waits out the backoff delay.
pub open spec fn retry_message_spec(delay_seconds: u64, attempt: u8) -> Seq<char> {
    "Network error. Retrying in "@ + dec_digits(delay_seconds as nat) + "s... (Attempt "@
        + dec_digits(attempt as nat) + ")"@
}

/// Renders the message of `retry_message_spec`.
pub fn retry_message(delay_seconds: u64, attempt: u8) -> (s: String)
    ensures
        s@ == retry_message_spec(delay_seconds, attempt),
{
    let s = String::from_str("Network error. Retrying in ");
    let s = s.concat(u64_to_dec(delay_seconds).as_str());
    let s = s.concat("s... (Attempt ");
    let s = s.concat(u64_to_dec(attempt as u64).as_str());
    s.concat(")")
}

/// What one new attempt needs to know about its task.
pub struct AttemptInfo {
    pub url: String,
    pub save_path: String,
    pub file_name: String,
    /// The byte offset the attempt resumes from.
    pub resume_from: u64,
    /// The attempt counter as it stands for this attempt.
    pub attempts: u8,
}

/// The registry's persistable content: the task list and the settings.
pub struct PersistentState {
    pub downloads: Vec<DownloadTask>,
    pub settings: AppSettings,
}

impl Default for PersistentState {
    /// An empty task list around default settings.
    fn default() -> (s: PersistentState)
        ensures
            s.downloads@ =~= Seq::<DownloadTask>::empty(),
            is_default_settings(s.settings, "~/Downloads"@),
    {
        PersistentState { downloads: Vec::new(), settings: AppSettings::default() }
    }
}

/// A persistable state is sound when every task is well formed and no two
/// tasks share an id.
pub open spec fn state_wf(s: PersistentState) -> bool {
    &&& forall|i: int| 0 <= i < s.downloads@.len() ==> (#[trigger] s.downloads@[i]).wf()
    &&& forall|i: int, j: int|
        0 <= i < j < s.downloads@.len() ==> s.downloads@[i].id@ != s.downloads@[j].id@
}

/// What loading a persisted state yields: its exact content when it is
/// sound, nothing otherwise.
pub open spec fn load_spec(s: PersistentState) -> Option<(Seq<DownloadTask>, AppSettings)> {
    if state_wf(s) {
        Some((s.downloads@, s.settings))
    } else {
        None
    }
}

/// The authoritative set of download tasks and the settings.
pub struct Registry {
    tasks: Vec<DownloadTask>,
    settings: AppSettings,
}

/// The two registries list exactly the same task ids.
pub open spec fn same_ids(pre: Registry, post: Registry) -> bool {
    forall|x: Seq<char>| #[trigger] post.contains_id(x) <==> pre.contains_id(x)
}

/// Task lists of one length whose ids agree position by position list the
/// same ids.
proof fn lemma_same_ids_pointwise(pre: Registry, post: Registry)
    requires
        post.tasks().len() == pre.tasks().len(),
        forall|j: int|
            0 <= j < pre.tasks().len() ==> post.tasks()[j].id@ == (#[trigger] pre.tasks()[j]).id@,
    ensures
        same_ids(pre, post),
{
    assert forall|x: Seq<char>| #[trigger] post.contains_id(x) <==> pre.contains_id(x) by {
        if pre.contains_id(x) {
            let j = choose|j: int|
                0 <= j < pre.tasks().len() && (#[trigger] pre.tasks()[j]).id@ == x;
            assert(post.tasks()[j].id@ == x);
        }
        if post.contains_id(x) {
            let j = choose|j: int|
                0 <= j < post.tasks().len() && (#[trigger] post.tasks()[j]).id@ == x;
            assert(pre.tasks()[j].id@ == x);
        }
    }
}

/// Pausing `id`: the task, if present, is `Paused` with a zeroed rate and
/// everything else kept; nothing else changes.
pub open spec fn pause_effect(pre: Registry, post: Registry, id: Seq<char>, found: bool) -> bool {
    &&& post.wf()
    &&& post.settings() == pre.settings()
    &&& same_ids(pre, post)
    &&& found == pre.contains_id(id)
    &&& !found ==> post.tasks() == pre.tasks()
    &&& found ==> exists|i: int|
        #![trigger pre.tasks()[i]]
        {
            &&& 0 <= i < pre.tasks().len()
            &&& pre.tasks()[i].id@ == id
            &&& post.tasks() == pre.tasks().update(i, post.tasks()[i])
            &&& post.tasks()[i] == (DownloadTask {
                status: DownloadStatus::Paused,
                speed: 0,
                time_remaining: None,
                error_message: None,
                completed_at: None,
                ..pre.tasks()[i]
            })
        }
}

/// Re-queueing `id` (when the concurrency ceiling defers a start): the task,
/// if present, is `Queued` with transient fields cleared.
pub open spec fn queue_effect(pre: Registry, post: Registry, id: Seq<char>, found: bool) -> bool {
    &&& post.wf()
    &&& post.settings() == pre.settings()
    &&& same_ids(pre, post)
    &&& found == pre.contains_id(id)
    &&& !found ==> post.tasks() == pre.tasks()
    &&& found ==> exists|i: int|
        #![trigger pre.tasks()[i]]
        {
            &&& 0 <= i < pre.tasks().len()
            &&& pre.tasks()[i].id@ == id
            &&& post.tasks() == pre.tasks().update(i, post.tasks()[i])
            &&& post.tasks()[i] == (DownloadTask {
                status: DownloadStatus::Queued,
                speed: 0,
                time_remaining: None,
                error_message: None,
                completed_at: None,
                ..pre.tasks()[i]
            })
        }
}

/// Cancelling `id`: the task, if present, is removed outright, and no task
/// with that id remains.
pub open spec fn cancel_effect(pre: Registry, post: Registry, id: Seq<char>, found: bool) -> bool {
    &&& post.wf()
    &&& post.settings() == pre.settings()
    &&& found == pre.contains_id(id)
    &&& !found ==> post.tasks() == pre.tasks()
    &&& found ==> exists|i: int|
        #![trigger pre.tasks()[i]]
        {
            &&& 0 <= i < pre.tasks().len()
            &&& pre.tasks()[i].id@ == id
            &&& post.tasks() == pre.tasks().remove(i)
        }
    &&& !post.contains_id(id)
    &&& forall|x: Seq<char>| x != id ==> ((#[trigger] post.contains_id(x)) <==> pre.contains_id(x))
}

/// Adding task `t`: appended when its id is fresh, refused otherwise.
pub open spec fn add_effect(pre: Registry, post: Registry, t: DownloadTask, added: bool) -> bool {
    &&& post.wf()
    &&& post.settings() == pre.settings()
    &&& added == !pre.contains_id(t.id@)
    &&& added ==> post.tasks() == pre.tasks().push(t)
    &&& !added ==> post.tasks() == pre.tasks()
    &&& forall|x: Seq<char>|
        (#[trigger] post.contains_id(x)) <==> (pre.contains_id(x) || (added && x == t.id@))
}

/// Beginning an attempt for `id`: if the task is present and no attempt is
/// in flight nor the task completed, it turns `Downloading` — bumping the
/// attempt counter unless it was freshly queued or explicitly paused — and
/// the attempt learns the URL, the destination, the resume offset and the
/// counter.
pub open spec fn begin_effect(
    pre: Registry,
    post: Registry,
    id: Seq<char>,
    r: Option<AttemptInfo>,
) -> bool {
    &&& post.wf()
    &&& post.settings() == pre.settings()
    &&& same_ids(pre, post)
    &&& r is None ==> post.tasks() == pre.tasks()
    &&& r is None ==> forall|i: int|
        0 <= i < pre.tasks().len() && (#[trigger] pre.tasks()[i]).id@ == id
            ==> !can_begin_attempt(pre.tasks()[i].status)
    &&& r matches Some(info) ==> exists|i: int|
        #![trigger pre.tasks()[i]]
        {
            &&& 0 <= i < pre.tasks().len()
            &&& pre.tasks()[i].id@ == id
            &&& can_begin_attempt(pre.tasks()[i].status)
            &&& post.tasks() == pre.tasks().update(i, post.tasks()[i])
            &&& post.tasks()[i] == (DownloadTask {
                status: DownloadStatus::Downloading,
                resume_attempts: post.tasks()[i].resume_attempts,
                error_message: None,
                completed_at: None,
                ..pre.tasks()[i]
            })
            &&& post.tasks()[i].resume_attempts == (if pre.tasks()[i].status is Queued
                || pre.tasks()[i].status is Paused {
                pre.tasks()[i].resume_attempts
            } else {
                bump_attempts(pre.tasks()[i].resume_attempts)
            })
            &&& info.url == pre.tasks()[i].url
            &&& info.save_path == pre.tasks()[i].save_path
            &&& info.file_name == pre.tasks()[i].file_name
            &&& info.resume_from == pre.tasks()[i].downloaded_size
            &&& info.attempts == post.tasks()[i].resume_attempts
        }
}

/// Applying a response's setup to `id`: the total, the resume capability and
/// the kept bytes are recorded, if the task is still `Downloading`.
pub open spec fn setup_effect(
    pre: Registry,
    post: Registry,
    id: Seq<char>,
    setup: AttemptSetup,
    applied: bool,
) -> bool {
    &&& post.wf()
    &&& post.settings() == pre.settings()
    &&& same_ids(pre, post)
    &&& !applied ==> post.tasks() == pre.tasks()
    &&& !applied ==> forall|i: int|
        0 <= i < pre.tasks().len() && (#[trigger] pre.tasks()[i]).id@ == id ==> !(pre.tasks()[i].status
            is Downloading)
    &&& applied ==> exists|i: int|
        #![trigger pre.tasks()[i]]
        {
            &&& 0 <= i < pre.tasks().len()
            &&& pre.tasks()[i].id@ == id
            &&& pre.tasks()[i].status is Downloading
            &&& post.tasks() == pre.tasks().update(i, post.tasks()[i])
            &&& post.tasks()[i] == (DownloadTask {
                total_size: setup.total_size,
                resume_capability: setup.resume_capability,
                downloaded_size: setup.write_offset,
                progress_bp: post.tasks()[i].progress_bp,
                ..pre.tasks()[i]
            })
            &&& post.tasks()[i].progress_bp == progress_basis_points(
                setup.write_offset,
                setup.total_size,
            )
        }
}

/// Publishing a progress sample for `id`: applied exactly when the task is
/// still `Downloading`, the sample does not run backwards, and it stays
/// within a known total — so no sample that should land is ever dropped.
pub open spec fn progress_effect(
    pre: Registry,
    post: Registry,
    id: Seq<char>,
    downloaded: u64,
    bytes_delta: u64,
    elapsed_ms: u64,
    applied: bool,
) -> bool {
    &&& post.wf()
    &&& post.settings() == pre.settings()
    &&& same_ids(pre, post)
    &&& !applied ==> post.tasks() == pre.tasks()
    &&& !applied ==> forall|i: int|
        0 <= i < pre.tasks().len() && (#[trigger] pre.tasks()[i]).id@ == id ==> !(pre.tasks()[i].status
            is Downloading && pre.tasks()[i].downloaded_size <= downloaded && (pre.tasks()[i].total_size
            > 0 ==> downloaded <= pre.tasks()[i].total_size))
    &&& applied ==> exists|i: int|
        #![trigger pre.tasks()[i]]
        {
            &&& 0 <= i < pre.tasks().len()
            &&& pre.tasks()[i].id@ == id
            &&& pre.tasks()[i].status is Downloading
            &&& pre.tasks()[i].downloaded_size <= downloaded
            &&& post.tasks() == pre.tasks().update(i, post.tasks()[i])
            &&& post.tasks()[i] == (DownloadTask {
                downloaded_size: downloaded,
                speed: post.tasks()[i].speed,
                time_remaining: post.tasks()[i].time_remaining,
                progress_bp: post.tasks()[i].progress_bp,
                ..pre.tasks()[i]
            })
            &&& post.tasks()[i].speed == speed_spec(bytes_delta, elapsed_ms)
            &&& post.tasks()[i].progress_bp == progress_basis_points(
                downloaded,
                pre.tasks()[i].total_size,
            )
        }
}

/// Moving `id` to `Verifying` when its stream ends: applied exactly when
/// the task is still `Downloading`.
pub open spec fn verifying_effect(
    pre: Registry,
    post: Registry,
    id: Seq<char>,
    applied: bool,
) -> bool {
    &&& post.wf()
    &&& post.settings() == pre.settings()
    &&& same_ids(pre, post)
    &&& !applied ==> post.tasks() == pre.tasks()
    &&& !applied ==> forall|i: int|
        0 <= i < pre.tasks().len() && (#[trigger] pre.tasks()[i]).id@ == id ==> !(pre.tasks()[i].status
            is Downloading)
    &&& applied ==> exists|i: int|
        #![trigger pre.tasks()[i]]
        {
            &&& 0 <= i < pre.tasks().len()
            &&& pre.tasks()[i].id@ == id
            &&& pre.tasks()[i].status is Downloading
            &&& post.tasks() == pre.tasks().update(i, post.tasks()[i])
            &&& post.tasks()[i] == (DownloadTask {
                status: DownloadStatus::Verifying,
                error_message: None,
                completed_at: None,
                ..pre.tasks()[i]
            })
        }
}

/// Completing `id` after the size check: applied exactly when the task is
/// still `Verifying`; the downloaded bytes then equal the total, progress is
/// full, the rate reads zero and the completion time is recorded.
pub open spec fn completed_effect(
    pre: Registry,
    post: Registry,
    id: Seq<char>,
    now: i64,
    applied: bool,
) -> bool {
    &&& post.wf()
    &&& post.settings() == pre.settings()
    &&& same_ids(pre, post)
    &&& !applied ==> post.tasks() == pre.tasks()
    &&& !applied ==> forall|i: int|
        0 <= i < pre.tasks().len() && (#[trigger] pre.tasks()[i]).id@ == id ==> !(pre.tasks()[i].status
            is Verifying)
    &&& applied ==> exists|i: int|
        #![trigger pre.tasks()[i]]
        {
            &&& 0 <= i < pre.tasks().len()
            &&& pre.tasks()[i].id@ == id
            &&& pre.tasks()[i].status is Verifying
            &&& post.tasks() == pre.tasks().update(i, post.tasks()[i])
            &&& post.tasks()[i] == (DownloadTask {
                status: DownloadStatus::Completed,
                downloaded_size: pre.tasks()[i].total_size,
                progress_bp: post.tasks()[i].progress_bp,
                speed: 0,
                time_remaining: None,
                error_message: None,
                completed_at: Some(now),
                ..pre.tasks()[i]
            })
            &&& post.tasks()[i].progress_bp == (if pre.tasks()[i].total_size > 0 {
                10000int
            } else {
                0int
            })
        }
}

/// The end of verification for `id`, given the measured size of the file on
/// disk: while the task is still `Verifying`, it completes exactly when the
/// measured size matches a known total (an unknown total accepts any size),
/// so a completed record's `downloaded_size` is the measured length itself
/// whenever the total was known. A mismatch changes nothing and hands the
/// size error back for the retry policy.
pub open spec fn verification_effect(
    pre: Registry,
    post: Registry,
    id: Seq<char>,
    actual_size: u64,
    now: i64,
    r: Option<Result<(), DownloadError>>,
) -> bool {
    &&& post.wf()
    &&& post.settings() == pre.settings()
    &&& same_ids(pre, post)
    &&& r is None ==> post.tasks() == pre.tasks()
    &&& r is None ==> forall|i: int|
        0 <= i < pre.tasks().len() && (#[trigger] pre.tasks()[i]).id@ == id ==> !(pre.tasks()[i].status
            is Verifying)
    &&& r matches Some(out) ==> exists|i: int|
        #![trigger pre.tasks()[i]]
        {
            &&& 0 <= i < pre.tasks().len()
            &&& pre.tasks()[i].id@ == id
            &&& pre.tasks()[i].status is Verifying
            &&& (out is Ok <==> (pre.tasks()[i].total_size == 0 || actual_size
                == pre.tasks()[i].total_size))
            &&& (out matches Err(e) ==> e == (DownloadError::SizeMismatch {
                expected: pre.tasks()[i].total_size,
                actual: actual_size,
            }) && post.tasks() == pre.tasks())
            &&& (out is Ok ==> {
                &&& post.tasks() == pre.tasks().update(i, post.tasks()[i])
                &&& post.tasks()[i] == (DownloadTask {
                    status: DownloadStatus::Completed,
                    downloaded_size: pre.tasks()[i].total_size,
                    progress_bp: post.tasks()[i].progress_bp,
                    speed: 0,
                    time_remaining: None,
                    error_message: None,
                    completed_at: Some(now),
                    ..pre.tasks()[i]
                })
                &&& (pre.tasks()[i].total_size > 0 ==> post.tasks()[i].downloaded_size
                    == actual_size)
                &&& post.tasks()[i].progress_bp == (if pre.tasks()[i].total_size > 0 {
                    10000int
                } else {
                    0int
                })
            })
        }
}

/// A failed attempt for `id`: while an attempt is in flight, the policy's
/// verdict lands in the record — `Failed` carrying the error's message, or
/// `Retrying` carrying the delay and attempt number. A pause or cancel that
/// intervened wins, and the outcome is ignored.
pub open spec fn failure_effect(
    pre: Registry,
    post: Registry,
    id: Seq<char>,
    error: DownloadError,
    duration_secs: u64,
    r: Option<RetryDecision>,
) -> bool {
    &&& post.wf()
    &&& post.settings() == pre.settings()
    &&& same_ids(pre, post)
    &&& r is None ==> post.tasks() == pre.tasks()
    &&& r is None ==> forall|i: int|
        0 <= i < pre.tasks().len() && (#[trigger] pre.tasks()[i]).id@ == id ==> !attempt_in_flight(
            pre.tasks()[i].status,
        )
    &&& r matches Some(d) ==> exists|i: int|
        #![trigger pre.tasks()[i]]
        {
            &&& 0 <= i < pre.tasks().len()
            &&& pre.tasks()[i].id@ == id
            &&& attempt_in_flight(pre.tasks()[i].status)
            &&& d == classify_spec(
                error,
                pre.tasks()[i].resume_attempts,
                duration_secs,
                pre.settings(),
            )
            &&& post.tasks() == pre.tasks().update(i, post.tasks()[i])
            &&& (d is FailPermanently ==> {
                &&& post.tasks()[i] == (DownloadTask {
                    status: DownloadStatus::Failed,
                    error_message: post.tasks()[i].error_message,
                    speed: 0,
                    time_remaining: None,
                    completed_at: None,
                    ..pre.tasks()[i]
                })
                &&& (post.tasks()[i].error_message matches Some(m) && m@ == message_spec(error))
            })
            &&& (d matches RetryDecision::RetryAfter { delay_seconds } ==> {
                &&& post.tasks()[i] == (DownloadTask {
                    status: DownloadStatus::Retrying,
                    error_message: post.tasks()[i].error_message,
                    completed_at: None,
                    ..pre.tasks()[i]
                })
                &&& delay_seconds == pre.settings().resume_delay_seconds
                &&& (post.tasks()[i].error_message matches Some(m) && m@ == retry_message_spec(
                    delay_seconds,
                    pre.tasks()[i].resume_attempts,
                ))
            })
        }
}

impl Registry {
    /// The task records, in insertion order.
    pub closed spec fn tasks(self) -> Seq<DownloadTask> {
        self.tasks@
    }

    /// The current settings.
    pub closed spec fn settings(self) -> AppSettings {
        self.settings
    }

    /// Every task well formed; no two tasks with one id.
    pub open spec fn wf(self) -> bool {
        &&& forall|i: int| 0 <= i < self.tasks().len() ==> (#[trigger] self.tasks()[i]).wf()
        &&& forall|i: int, j: int|
            0 <= i < j < self.tasks().len() ==> self.tasks()[i].id@ != self.tasks()[j].id@
    }

    /// Some task carries this id.
    pub open spec fn contains_id(self, id: Seq<char>) -> bool {
        exists|i: int| 0 <= i < self.tasks().len() && (#[trigger] self.tasks()[i]).id@ == id
    }

    /// An empty registry around the given settings.
    pub fn new(settings: AppSettings) -> (r: Registry)
        ensures
            r.wf(),
            r.tasks() =~= Seq::<DownloadTask>::empty(),
            r.settings() == settings,
    {
        Registry { tasks: Vec::new(), settings }
    }

    /// The index of the task with this id, if any.
    fn find_index(&self, id: &str) -> (r: Option<usize>)
        ensures
            r matches Some(i) ==> i < self.tasks().len() && self.tasks()[i as int].id@ == id@,
            r is None ==> !self.contains_id(id@),
    {
        let mut i: usize = 0;
        let len = self.tasks.len();
        while i < len
            invariant
                len == self.tasks@.len(),
                i <= len,
                forall|j: int| 0 <= j < i ==> (#[trigger] self.tasks@[j]).id@ != id@,
            decreases len - i,
        {
            if str_eq(self.tasks[i].id.as_str(), id) {
                return Some(i);
            }
            i = i + 1;
        }
        None
    }

    /// Whether a task with this id is registered.
    pub fn contains(&self, id: &str) -> (b: bool)
        ensures
            b == self.contains_id(id@),
    {
        match self.find_index(id) {
            Some(_) => true,
            None => false,
        }
    }

    /// A copy of the task with this id, if any.
    pub fn get_task(&self, id: &str) -> (r: Option<DownloadTask>)
        ensures
            r is Some <==> self.contains_id(id@),
            r matches Some(t) ==> exists|i: int|
                0 <= i < self.tasks().len() && (#[trigger] self.tasks()[i]).id@ == id@
                    && self.tasks()[i] == t,
    {
        match self.find_index(id) {
            Some(i) => Some(self.tasks[i].duplicate()),
            None => None,
        }
    }

    /// Registers a fresh task. Refuses a task whose id is already taken, so
    /// that ids stay unique.
    pub fn add_task(&mut self, t: DownloadTask) -> (added: bool)
        requires
            old(self).wf(),
            t.wf(),
        ensures
            add_effect(*old(self), *final(self), t, added),
    {
        match self.find_index(t.id.as_str()) {
            Some(_) => false,
            None => {
                self.tasks.push(t);
                proof {
                    let n = old(self).tasks().len() as int;
                    assert(self.tasks()[n].id@ == t.id@);
                    assert forall|x: Seq<char>| (#[trigger] self.contains_id(x)) <==> (old(
                        self,
                    ).contains_id(x) || x == t.id@) by {
                        if old(self).contains_id(x) {
                            let j = choose|j: int|
                                0 <= j < old(self).tasks().len() && (#[trigger] old(
                                    self,
                                ).tasks()[j]).id@ == x;
                            assert(self.tasks()[j].id@ == x);
                        }
                        if self.contains_id(x) {
                            let j = choose|j: int|
                                0 <= j < self.tasks().len() && (#[trigger] self.tasks()[j]).id@
                                    == x;
                            if j < n {
                                assert(old(self).tasks()[j].id@ == x);
                            }
                        }
                    }
                }
                true
            },
        }
    }

    /// Copies of all task records, in insertion order.
    pub fn get_all_downloads(&self) -> (r: Vec<DownloadTask>)
        ensures
            r@ == self.tasks(),
    {
        let mut out: Vec<DownloadTask> = Vec::new();
        let mut i: usize = 0;
        let len = self.tasks.len();
        while i < len
            invariant
                len == self.tasks@.len(),
                i <= len,
                out@ =~= self.tasks@.subrange(0, i as int),
            decreases len - i,
        {
            out.push(self.tasks[i].duplicate());
            proof {
                assert(out@ =~= self.tasks@.subrange(0, i + 1));
            }
            i = i + 1;
        }
        proof {
            assert(self.tasks@.subrange(0, len as int) =~= self.tasks@);
        }
        out
    }

    /// A copy of the settings.
    pub fn get_settings(&self) -> (r: AppSettings)
        ensures
            r == self.settings(),
    {
        self.settings.duplicate()
    }

    /// Replaces the settings; the tasks stay as they are.
    pub fn update_settings(&mut self, settings: AppSettings)
        requires
            old(self).wf(),
        ensures
            final(self).wf(),
            final(self).settings() == settings,
            final(self).tasks() == old(self).tasks(),
    {
        self.settings = settings;
    }

    /// Pauses the task: the in-flight attempt's updates will be ignored from
    /// here on, the rate reads zero, and the downloaded bytes stay for a
    /// later resume.
    pub fn pause_download(&mut self, id: &str) -> (found: bool)
        requires
            old(self).wf(),
        ensures
            pause_effect(*old(self), *final(self), id@, found),
    {
        match self.find_index(id) {
            Some(i) => {
                let t = &mut self.tasks[i];
                t.mark_paused();
                proof {
                    assert forall|j: int| 0 <= j < old(self).tasks().len() implies self.tasks()[j].id@
                        == (#[trigger] old(self).tasks()[j]).id@ by {
                        if j != i as int {
                            assert(self.tasks()[j] == old(self).tasks()[j]);
                        }
                    }
                    lemma_same_ids_pointwise(*old(self), *self);
                }
                true
            },
            None => false,
        }
    }

    /// Puts the task back in the admission queue (used when the concurrency
    /// ceiling defers a start).
    pub fn mark_queued(&mut self, id: &str) -> (found: bool)
        requires
            old(self).wf(),
        ensures
            queue_effect(*old(self), *final(self), id@, found),
    {
        match self.find_index(id) {
            Some(i) => {
                let t = &mut self.tasks[i];
                t.mark_queued();
                proof {
                    assert forall|j: int| 0 <= j < old(self).tasks().len() implies self.tasks()[j].id@
                        == (#[trigger] old(self).tasks()[j]).id@ by {
                        if j != i as int {
                            assert(self.tasks()[j] == old(self).tasks()[j]);
                        }
                    }
                    lemma_same_ids_pointwise(*old(self), *self);
                }
                true
            },
            None => false,
        }
    }

    /// Removes the task from the registry entirely. Afterwards no task with
    /// this id is listed, and no engine update for it will ever apply again.
    pub fn cancel_download(&mut self, id: &str) -> (found: bool)
        requires
            old(self).wf(),
        ensures
            cancel_effect(*old(self), *final(self), id@, found),
    {
        match self.find_index(id) {
            Some(i) => {
                self.tasks.remove(i);
                proof {
                    assert forall|j: int| 0 <= j < self.tasks@.len() implies (
                    #[trigger] self.tasks@[j]).id@ != id@ by {
                        if j < i {
                            assert(self.tasks@[j] == old(self).tasks()[j]);
                        } else {
                            assert(self.tasks@[j] == old(self).tasks()[j + 1]);
                        }
                    }
                    assert forall|x: Seq<char>| x != id@ implies ((#[trigger] self.contains_id(x))
                        <==> old(self).contains_id(x)) by {
                        if old(self).contains_id(x) {
                            let j = choose|j: int|
                                0 <= j < old(self).tasks().len() && (#[trigger] old(
                                    self,
                                ).tasks()[j]).id@ == x;
                            if j < i {
                                assert(self.tasks()[j].id@ == x);
                            } else {
                                assert(j != i as int);
                                assert(self.tasks()[j - 1].id@ == x);
                            }
                        }
                        if self.contains_id(x) {
                            let j = choose|j: int|
                                0 <= j < self.tasks().len() && (#[trigger] self.tasks()[j]).id@
                                    == x;
                            if j < i {
                                assert(old(self).tasks()[j].id@ == x);
                            } else {
                                assert(old(self).tasks()[j + 1].id@ == x);
                            }
                        }
                    }
                }
                true
            },
            None => false,
        }
    }

    /// Begins a transfer attempt for the task, unless it is completed or an
    /// attempt is already in flight. Returns what the attempt needs: the
    /// URL, the destination, the resume offset, and the attempt counter as
    /// it now stands.
    pub fn begin_attempt(&mut self, id: &str) -> (r: Option<AttemptInfo>)
        requires
            old(self).wf(),
        ensures
            begin_effect(*old(self), *final(self), id@, r),
    {
        match self.find_index(id) {
            Some(i) => {
                let can = match self.tasks[i].status {
                    DownloadStatus::Completed => false,
                    DownloadStatus::Downloading => false,
                    DownloadStatus::Verifying => false,
                    _ => true,
                };
                if !can {
                    return None;
                }
                let t = &mut self.tasks[i];
                t.begin_attempt();
                let info = AttemptInfo {
                    url: t.url.clone(),
                    save_path: t.save_path.clone(),
                    file_name: t.file_name.clone(),
                    resume_from: t.downloaded_size,
                    attempts: t.resume_attempts,
                };
                proof {
                    assert forall|j: int| 0 <= j < old(self).tasks().len() implies self.tasks()[j].id@
                        == (#[trigger] old(self).tasks()[j]).id@ by {
                        if j != i as int {
                            assert(self.tasks()[j] == old(self).tasks()[j]);
                        }
                    }
                    lemma_same_ids_pointwise(*old(self), *self);
                }
                Some(info)
            },
            None => None,
        }
    }

    /// Records what the attempt's response headers said, unless a pause or
    /// cancel intervened since the attempt began.
    pub fn apply_attempt_setup(&mut self, id: &str, setup: &AttemptSetup) -> (applied: bool)
        requires
            old(self).wf(),
            setup.wf(),
        ensures
            setup_effect(*old(self), *final(self), id@, *setup, applied),
    {
        match self.find_index(id) {
            Some(i) => {
                let downloading = match self.tasks[i].status {
                    DownloadStatus::Downloading => true,
                    _ => false,
                };
                if !downloading {
                    return false;
                }
                let t = &mut self.tasks[i];
                t.apply_attempt_setup(setup);
                proof {
                    assert forall|j: int| 0 <= j < old(self).tasks().len() implies self.tasks()[j].id@
                        == (#[trigger] old(self).tasks()[j]).id@ by {
                        if j != i as int {
                            assert(self.tasks()[j] == old(self).tasks()[j]);
                        }
                    }
                    lemma_same_ids_pointwise(*old(self), *self);
                }
                true
            },
            None => false,
        }
    }

    /// Publishes one progress sample, unless a pause or cancel intervened,
    /// the sample runs backwards, or it overshoots a known total.
    pub fn record_progress(
        &mut self,
        id: &str,
        downloaded: u64,
        bytes_delta: u64,
        elapsed_ms: u64,
    ) -> (applied: bool)
        requires
            old(self).wf(),
        ensures
            progress_effect(
                *old(self),
                *final(self),
                id@,
                downloaded,
                bytes_delta,
                elapsed_ms,
                applied,
            ),
    {
        match self.find_index(id) {
            Some(i) => {
                let eligible = match self.tasks[i].status {
                    DownloadStatus::Downloading => true,
                    _ => false,
                };
                if !eligible {
                    return false;
                }
                if downloaded < self.tasks[i].downloaded_size {
                    return false;
                }
                if self.tasks[i].total_size > 0 && downloaded > self.tasks[i].total_size {
                    return false;
                }
                let t = &mut self.tasks[i];
                t.record_progress(downloaded, bytes_delta, elapsed_ms);
                proof {
                    assert forall|j: int| 0 <= j < old(self).tasks().len() implies self.tasks()[j].id@
                        == (#[trigger] old(self).tasks()[j]).id@ by {
                        if j != i as int {
                            assert(self.tasks()[j] == old(self).tasks()[j]);
                        }
                    }
                    lemma_same_ids_pointwise(*old(self), *self);
                }
                true
            },
            None => false,
        }
    }

    /// The stream ended: the task moves to `Verifying`, unless a pause or
    /// cancel intervened.
    pub fn mark_verifying(&mut self, id: &str) -> (applied: bool)
        requires
            old(self).wf(),
        ensures
            verifying_effect(*old(self), *final(self), id@, applied),
    {
        match self.find_index(id) {
            Some(i) => {
                let downloading = match self.tasks[i].status {
                    DownloadStatus::Downloading => true,
                    _ => false,
                };
                if !downloading {
                    return false;
                }
                let t = &mut self.tasks[i];
                t.mark_verifying();
                proof {
                    assert forall|j: int| 0 <= j < old(self).tasks().len() implies self.tasks()[j].id@
                        == (#[trigger] old(self).tasks()[j]).id@ by {
                        if j != i as int {
                            assert(self.tasks()[j] == old(self).tasks()[j]);
                        }
                    }
                    lemma_same_ids_pointwise(*old(self), *self);
                }
                true
            },
            None => false,
        }
    }

    /// The size check passed: the task completes, with full progress and the
    /// completion time recorded — unless a pause or cancel intervened while
    /// the size was being checked.
    pub fn mark_completed(&mut self, id: &str, now: i64) -> (applied: bool)
        requires
            old(self).wf(),
        ensures
            completed_effect(*old(self), *final(self), id@, now, applied),
    {
        match self.find_index(id) {
            Some(i) => {
                let verifying = match self.tasks[i].status {
                    DownloadStatus::Verifying => true,
                    _ => false,
                };
                if !verifying {
                    return false;
                }
                let t = &mut self.tasks[i];
                t.mark_completed(now);
                proof {
                    assert forall|j: int| 0 <= j < old(self).tasks().len() implies self.tasks()[j].id@
                        == (#[trigger] old(self).tasks()[j]).id@ by {
                        if j != i as int {
                            assert(self.tasks()[j] == old(self).tasks()[j]);
                        }
                    }
                    lemma_same_ids_pointwise(*old(self), *self);
                }
                true
            },
            None => false,
        }
    }

    /// Finishes verification with the measured file size: the task completes
    /// exactly when the size matches, as `verification_effect` says.
    pub fn complete_verified(&mut self, id: &str, actual_size: u64, now: i64) -> (r: Option<
        Result<(), DownloadError>,
    >)
        requires
            old(self).wf(),
        ensures
            verification_effect(*old(self), *final(self), id@, actual_size, now, r),
    {
        match self.find_index(id) {
            Some(i) => {
                let verifying = match self.tasks[i].status {
                    DownloadStatus::Verifying => true,
                    _ => false,
                };
                if !verifying {
                    return None;
                }
                match verify_size(self.tasks[i].total_size, actual_size) {
                    Ok(()) => {
                        let t = &mut self.tasks[i];
                        t.mark_completed(now);
                        proof {
                            assert forall|j: int| 0 <= j < old(self).tasks().len() implies self.tasks()[j].id@
                                == (#[trigger] old(self).tasks()[j]).id@ by {
                                if j != i as int {
                                    assert(self.tasks()[j] == old(self).tasks()[j]);
                                }
                            }
                            lemma_same_ids_pointwise(*old(self), *self);
                        }
                        Some(Ok(()))
                    },
                    Err(e) => Some(Err(e)),
                }
            },
            None => None,
        }
    }

    /// An attempt failed: the policy decides, and the registry applies the
    /// verdict — `Failed` with the error's message, or `Retrying` with the
    /// delay and attempt number spelled out. A pause or cancel that
    /// intervened wins: the outcome is then ignored and `None` returned.
    pub fn on_attempt_failure(
        &mut self,
        id: &str,
        error: &DownloadError,
        duration_secs: u64,
    ) -> (r: Option<RetryDecision>)
        requires
            old(self).wf(),
        ensures
            failure_effect(*old(self), *final(self), id@, *error, duration_secs, r),
    {
        match self.find_index(id) {
            Some(i) => {
                let in_flight = match self.tasks[i].status {
                    DownloadStatus::Downloading => true,
                    DownloadStatus::Verifying => true,
                    _ => false,
                };
                if !in_flight {
                    return None;
                }
                let attempts = self.tasks[i].resume_attempts;
                let decision = classify_attempt_failure(
                    error,
                    attempts,
                    duration_secs,
                    &self.settings,
                );
                match decision {
                    RetryDecision::FailPermanently => {
                        let msg = error.message();
                        let t = &mut self.tasks[i];
                        t.mark_failed(msg);
                    },
                    RetryDecision::RetryAfter { delay_seconds } => {
                        let msg = retry_message(delay_seconds, attempts);
                        let t = &mut self.tasks[i];
                        t.mark_retrying(msg);
                    },
                }
                proof {
                    assert forall|j: int| 0 <= j < old(self).tasks().len() implies self.tasks()[j].id@
                        == (#[trigger] old(self).tasks()[j]).id@ by {
                        if j != i as int {
                            assert(self.tasks()[j] == old(self).tasks()[j]);
                        }
                    }
                    lemma_same_ids_pointwise(*old(self), *self);
                }
                Some(decision)
            },
            None => None,
        }
    }

    /// A copy of the whole registry content, ready to persist.
    pub fn to_state(&self) -> (s: PersistentState)
        ensures
            s.downloads@ == self.tasks(),
            s.settings == self.settings(),
    {
        PersistentState { downloads: self.get_all_downloads(), settings: self.settings.duplicate() }
    }

    /// Rebuilds a registry from a loaded state, exactly when the state is
    /// sound, as `load_spec` says: loading what was saved gives back the
    /// saved tasks and settings, and nothing else ever loads.
    pub fn from_state(s: PersistentState) -> (r: Option<Registry>)
        ensures
            r is Some <==> load_spec(s) is Some,
            r matches Some(reg) ==> ({
                &&& reg.wf()
                &&& load_spec(s) == Some((reg.tasks(), reg.settings()))
            }),
    {
        let mut i: usize = 0;
        let len = s.downloads.len();
        while i < len
            invariant
                len == s.downloads@.len(),
                i <= len,
                forall|j: int| 0 <= j < i ==> (#[trigger] s.downloads@[j]).wf(),
            decreases len - i,
        {
            if !task_is_wf(&s.downloads[i]) {
                return None;
            }
            i = i + 1;
        }
        let mut a: usize = 0;
        while a < len
            invariant
                len == s.downloads@.len(),
                a <= len,
                forall|j: int, k: int|
                    0 <= j < k < len && j < a ==> s.downloads@[j].id@ != s.downloads@[k].id@,
            decreases len - a,
        {
            let mut b: usize = a + 1;
            while b < len
                invariant
                    len == s.downloads@.len(),
                    a < b <= len || (a + 1 == b && b > len),
                    a < len,
                    forall|k: int| a < k < b ==> s.downloads@[a as int].id@ != (
                    #[trigger] s.downloads@[k]).id@,
                decreases len - b,
            {
                if str_eq(s.downloads[a].id.as_str(), s.downloads[b].id.as_str()) {
                    return None;
                }
                b = b + 1;
            }
            a = a + 1;
        }
        Some(Registry { tasks: s.downloads, settings: s.settings })
    }
}

/// Executable check of `DownloadTask::wf`.
pub fn task_is_wf(t: &DownloadTask) -> (b: bool)
    ensures
        b == t.wf(),
{
    if t.total_size > 0 && t.downloaded_size > t.total_size {
        return false;
    }
    let expected_bp = compute_progress_bp(t.downloaded_size, t.total_size);
    if t.progress_bp != expected_bp {
        return false;
    }
    let failed_or_retrying = match t.status {
        DownloadStatus::Failed => true,
        DownloadStatus::Retrying => true,
        _ => false,
    };
    let has_error = match &t.error_message {
        Some(_) => true,
        None => false,
    };
    if has_error != failed_or_retrying {
        return false;
    }
    let completed = match t.status {
        DownloadStatus::Completed => true,
        _ => false,
    };
    let has_completed_at = match t.completed_at {
        Some(_) => true,
        None => false,
    };
    if has_completed_at != completed {
        return false;
    }
    if completed {
        if t.downloaded_size != t.total_size {
            return false;
        }
        let has_remaining = match t.time_remaining {
            Some(_) => true,
            None => false,
        };
        if has_remaining {
            return false;
        }
    }
    let must_be_idle = match t.status {
        DownloadStatus::Queued => true,
        DownloadStatus::Paused => true,
        DownloadStatus::Failed => true,
        DownloadStatus::Completed => true,
        _ => false,
    };
    if must_be_idle && t.speed != 0 {
        return false;
    }
    true
}


/// Every task record a well-formed registry lists — so every snapshot an
/// observer receives — is itself well formed: its size, progress, message
/// and timestamp fields obey `DownloadTask::wf`.
pub proof fn lemma_listed_snapshots_wf(reg: Registry, i: int)
    requires
        reg.wf(),
        0 <= i < reg.tasks().len(),
    ensures
        reg.tasks()[i].wf(),
{
}

/// After a cancel, no listed task carries the cancelled id: the task is gone
/// from every later listing.
pub proof fn lemma_cancelled_not_listed(pre: Registry, post: Registry, id: Seq<char>)
    requires
        cancel_effect(pre, post, id, true),
    ensures
        forall|i: int| 0 <= i < post.tasks().len() ==> (#[trigger] post.tasks()[i]).id@ != id,
{
    assert forall|i: int| 0 <= i < post.tasks().len() implies (#[trigger] post.tasks()[i]).id@
        != id by {
        if post.tasks()[i].id@ == id {
            assert(post.contains_id(id));
        }
    }
}

/// Saving a well-formed registry and loading the result gives back exactly
/// the saved tasks and settings, field for field: what `to_state` produces
/// is sound, and `load_spec` maps it to precisely the registry's content.
pub proof fn lemma_save_load_round_trip(reg: Registry, s: PersistentState)
    requires
        reg.wf(),
        s.downloads@ == reg.tasks(),
        s.settings == reg.settings(),
    ensures
        state_wf(s),
        load_spec(s) == Some((reg.tasks(), reg.settings())),
{
}

/// Resuming a paused task with `downloaded_size = N` starts the next attempt
/// at byte `N`: the attempt's resume offset is exactly the byte count the
/// task held when it was paused.
pub proof fn lemma_paused_resume_offset(
    r0: Registry,
    r1: Registry,
    r2: Registry,
    id: Seq<char>,
    info: AttemptInfo,
)
    requires
        r0.wf(),
        pause_effect(r0, r1, id, true),
        begin_effect(r1, r2, id, Some(info)),
    ensures
        exists|i: int|
            0 <= i < r0.tasks().len() && (#[trigger] r0.tasks()[i]).id@ == id
                && info.resume_from == r0.tasks()[i].downloaded_size,
{
    let i1 = choose|i: int|
        #![trigger r0.tasks()[i]]
        {
            &&& 0 <= i < r0.tasks().len()
            &&& r0.tasks()[i].id@ == id
            &&& r1.tasks() == r0.tasks().update(i, r1.tasks()[i])
            &&& r1.tasks()[i] == (DownloadTask {
                status: DownloadStatus::Paused,
                speed: 0,
                time_remaining: None,
                error_message: None,
                completed_at: None,
                ..r0.tasks()[i]
            })
        };
    let i2 = choose|i: int|
        #![trigger r1.tasks()[i]]
        {
            &&& 0 <= i < r1.tasks().len()
            &&& r1.tasks()[i].id@ == id
            &&& can_begin_attempt(r1.tasks()[i].status)
            &&& r2.tasks() == r1.tasks().update(i, r2.tasks()[i])
            &&& r2.tasks()[i] == (DownloadTask {
                status: DownloadStatus::Downloading,
                resume_attempts: r2.tasks()[i].resume_attempts,
                error_message: None,
                completed_at: None,
                ..r1.tasks()[i]
            })
            &&& r2.tasks()[i].resume_attempts == (if r1.tasks()[i].status is Queued
                || r1.tasks()[i].status is Paused {
                r1.tasks()[i].resume_attempts
            } else {
                bump_attempts(r1.tasks()[i].resume_attempts)
            })
            &&& info.url == r1.tasks()[i].url
            &&& info.save_path == r1.tasks()[i].save_path
            &&& info.file_name == r1.tasks()[i].file_name
            &&& info.resume_from == r1.tasks()[i].downloaded_size
            &&& info.attempts == r2.tasks()[i].resume_attempts
        };
    if i1 != i2 {
        assert(r1.tasks()[i2] == r0.tasks()[i2]);
        assert(r0.tasks()[i1].id@ != r0.tasks()[i2].id@);
    }
    assert(r1.tasks()[i1].downloaded_size == r0.tasks()[i1].downloaded_size);
    assert(r0.tasks()[i1].id@ == id && info.resume_from == r0.tasks()[i1].downloaded_size);
}

} // verus!
