//! The orchestrator: the single owner of the task registry and of the set of
//! running execution units. It decides what starts, what is deferred by the
//! concurrency ceiling, what is admitted next, and it keeps the invariant
//! that no two units ever run for one task id.
//!
//! The surrounding application holds one orchestrator behind its lock, keeps
//! the real execution handles keyed by the same ids, and calls one method
//! here per mutation.

use vstd::prelude::*;
use vstd::string::StringExecFns;
use crate::errors::DownloadError;
use crate::policy::RetryDecision;
use crate::registry::AttemptInfo;
use crate::registry::PersistentState;
use crate::registry::Registry;
use crate::registry::add_effect;
use crate::registry::begin_effect;
use crate::registry::cancel_effect;
use crate::registry::completed_effect;
use crate::registry::failure_effect;
use crate::registry::pause_effect;
use crate::registry::progress_effect;
use crate::registry::queue_effect;
use crate::registry::setup_effect;
use crate::registry::verification_effect;
use crate::registry::verifying_effect;
use crate::naming::file_type_spec;
use crate::naming::get_file_type;
use crate::platform::new_uuid_string;
use crate::platform::now_timestamp;
use crate::settings::AppSettings;
use crate::task::DownloadTask;
use crate::text::seq_starts_with;
use crate::text::str_eq;
use crate::transfer::AttemptSetup;

verus! {

/// What `start_download` decided.
#[derive(Clone, Copy, Debug, PartialEq, Eq, Structural)]
pub enum StartOutcome {
    /// A new execution unit should be spawned for the task.
    Started,
    /// A unit already runs for this download; nothing to do.
    AlreadyRunning,
    /// The concurrency ceiling is reached; the task waits in the queue.
    Deferred,
    /// No task with this id.
    NotFound,
}

/// The orchestrator: the registry plus the ids of the tasks whose execution
/// units are alive.
pub struct Orchestrator {
    registry: Registry,
    running: Vec<String>,
}

impl Orchestrator {
    /// The owned registry.
    pub closed spec fn registry(self) -> Registry {
        self.registry
    }

    /// The ids with a live execution unit, in spawn order.
    pub closed spec fn running(self) -> Seq<String> {
        self.running@
    }

    /// A unit runs for this id.
    pub open spec fn is_running(self, id: Seq<char>) -> bool {
        exists|i: int| 0 <= i < self.running().len() && (#[trigger] self.running()[i])@ == id
    }

    /// The registry is well formed, no id runs twice, and every running id
    /// is registered.
    pub open spec fn wf(self) -> bool {
        &&& self.registry().wf()
        &&& forall|i: int, j: int|
            0 <= i < j < self.running().len() ==> self.running()[i]@ != self.running()[j]@
        &&& forall|i: int|
            0 <= i < self.running().len() ==> self.registry().contains_id(
                (#[trigger] self.running()[i])@,
            )
    }

    /// At most one execution unit ever runs for a task id, so the
    /// destination file of a task has a single writer.
    pub proof fn lemma_single_writer_per_task(self, i: int, j: int)
        requires
            self.wf(),
            0 <= i < self.running().len(),
            0 <= j < self.running().len(),
            i != j,
        ensures
            self.running()[i]@ != self.running()[j]@,
    {
    }

    /// An orchestrator around a loaded registry, with nothing running yet.
    pub fn new(registry: Registry) -> (r: Orchestrator)
        requires
            registry.wf(),
        ensures
            r.wf(),
            r.registry() == registry,
            r.running() =~= Seq::<String>::empty(),
    {
        Orchestrator { registry, running: Vec::new() }
    }

    /// The index of `id` in the running set, if a unit runs for it.
    fn running_index(&self, id: &str) -> (r: Option<usize>)
        ensures
            r matches Some(i) ==> i < self.running().len() && self.running()[i as int]@ == id@,
            r is None ==> !self.is_running(id@),
    {
        let mut i: usize = 0;
        let len = self.running.len();
        while i < len
            invariant
                len == self.running@.len(),
                i <= len,
                forall|j: int| 0 <= j < i ==> (#[trigger] self.running@[j])@ != id@,
            decreases len - i,
        {
            if str_eq(self.running[i].as_str(), id) {
                return Some(i);
            }
            i = i + 1;
        }
        None
    }

    /// Read-only view of the registry for queries.
    pub fn get_all_downloads(&self) -> (r: Vec<DownloadTask>)
        ensures
            r@ == self.registry().tasks(),
    {
        self.registry.get_all_downloads()
    }

    /// A copy of the task with this id, if any.
    pub fn get_task(&self, id: &str) -> (r: Option<DownloadTask>)
        ensures
            r is Some <==> self.registry().contains_id(id@),
            r matches Some(t) ==> exists|i: int|
                0 <= i < self.registry().tasks().len() && (#[trigger] self.registry().tasks()[i]).id@
                    == id@ && self.registry().tasks()[i] == t,
    {
        let r = self.registry.get_task(id);
        proof {
            if r is Some {
                let t = r->Some_0;
                let i = choose|i: int|
                    0 <= i < self.registry.tasks().len() && (#[trigger] self.registry.tasks()[i]).id@
                        == id@ && self.registry.tasks()[i] == t;
                assert((#[trigger] self.registry().tasks()[i]).id@ == id@);
            }
        }
        r
    }

    /// A copy of the settings.
    pub fn get_settings(&self) -> (r: AppSettings)
        ensures
            r == self.registry().settings(),
    {
        self.registry.get_settings()
    }

    /// Replaces the settings; tasks and running units stay as they are.
    pub fn update_settings(&mut self, settings: AppSettings)
        requires
            old(self).wf(),
        ensures
            final(self).wf(),
            final(self).registry().settings() == settings,
            final(self).registry().tasks() == old(self).registry().tasks(),
            final(self).running() == old(self).running(),
    {
        self.registry.update_settings(settings);
        proof {
            assert(self.running@ =~= old(self).running());
            assert forall|i: int| 0 <= i < self.running@.len() implies self.registry.contains_id(
                (#[trigger] self.running@[i])@,
            ) by {
                assert(old(self).registry().contains_id((old(self).running()[i])@));
                assert(self.registry.tasks() == old(self).registry().tasks());
            }
        }
    }

    /// Registers a fresh task; refused if its id is already taken.
    pub fn add_task(&mut self, t: DownloadTask) -> (added: bool)
        requires
            old(self).wf(),
            t.wf(),
        ensures
            final(self).wf(),
            add_effect(old(self).registry(), final(self).registry(), t, added),
            final(self).running() == old(self).running(),
    {
        let added = self.registry.add_task(t);
        proof {
            assert(self.running@ =~= old(self).running());
            assert forall|i: int| 0 <= i < self.running@.len() implies self.registry.contains_id(
                (#[trigger] self.running@[i])@,
            ) by {
                assert(old(self).registry().contains_id((old(self).running()[i])@));
            }
        }
        added
    }


    /// Creates a `Queued` task for a resolved download: a fresh `task-<uuid>`
    /// id, the given URL and file name, the advertised total size (0 when
    /// unknown), the settings' folder unless a custom one is given, and the
    /// classification derived from the file name. `None` only when the
    /// freshly drawn id collides with a registered one — so a registry that
    /// holds no such id (an empty one, say) always registers the task.
    pub fn add_download(
        &mut self,
        url: String,
        file_name: String,
        total_size: Option<u64>,
        custom_path: Option<String>,
    ) -> (r: Option<DownloadTask>)
        requires
            old(self).wf(),
        ensures
            final(self).wf(),
            final(self).running() == old(self).running(),
            r is None ==> (final(self).registry().tasks() == old(self).registry().tasks() && final(self).registry().settings() == old(self).registry().settings()),
            r is None ==> exists|i: int|
                0 <= i < old(self).registry().tasks().len() && (#[trigger] old(
                    self,
                ).registry().tasks()[i]).id@.len() == 41 && seq_starts_with(
                    old(self).registry().tasks()[i].id@,
                    "task-"@,
                ),
            r matches Some(t) ==> ({
                &&& add_effect(old(self).registry(), final(self).registry(), t, true)
                &&& t.wf()
                &&& t.status is Queued
                &&& t.url == url
                &&& t.file_name == file_name
                &&& t.total_size == (match total_size {
                    Some(n) => n,
                    None => 0u64,
                })
                &&& t.downloaded_size == 0
                &&& t.progress_bp == 0
                &&& t.speed == 0
                &&& t.time_remaining is None
                &&& !t.resume_capability
                &&& t.completed_at is None
                &&& t.resume_attempts == 0
                &&& t.error_message is None
                &&& t.file_type@ == file_type_spec(file_name@)
                &&& (custom_path matches Some(p) ==> t.save_path == p)
                &&& (custom_path is None ==> t.save_path == old(self).registry().settings().download_folder)
                &&& t.connections == old(self).registry().settings().max_connections_per_download
                &&& t.id@.len() == 41
                &&& seq_starts_with(t.id@, "task-"@)
            }),
    {
        let uuid = new_uuid_string();
        let id = String::from_str("task-").concat(uuid.as_str());
        proof {
            reveal_strlit("task-");
            assert(id@.subrange(0, 5) =~= "task-"@);
        }
        let file_type = get_file_type(file_name.as_str());
        let settings = self.registry.get_settings();
        let save_path = match custom_path {
            Some(p) => p,
            None => settings.download_folder,
        };
        let created_at = now_timestamp();
        let total = match total_size {
            Some(n) => n,
            None => 0,
        };
        let t = DownloadTask::new(
            id,
            url,
            file_name,
            save_path,
            total,
            file_type,
            settings.max_connections_per_download,
            created_at,
        );
        let out = t.duplicate();
        let ghost fresh_id = out.id@;
        let added = self.add_task(t);
        if added {
            Some(out)
        } else {
            proof {
                let i = choose|i: int|
                    0 <= i < old(self).registry().tasks().len() && (#[trigger] old(
                        self,
                    ).registry().tasks()[i]).id@ == fresh_id;
                assert(old(self).registry().tasks()[i].id@.len() == 41);
            }
            None
        }
    }

    /// Decides a start request: spawn a unit, already running, deferred by
    /// the ceiling (the task then waits `Queued`), or no such task.
    pub fn start_download(&mut self, id: &str) -> (r: StartOutcome)
        requires
            old(self).wf(),
        ensures
            final(self).wf(),
            r is NotFound <==> !old(self).registry().contains_id(id@),
            r is AlreadyRunning <==> (old(self).registry().contains_id(id@) && old(self).is_running(id@)),
            r is Deferred <==> (old(self).registry().contains_id(id@) && !old(self).is_running(id@)
                && old(self).running().len() >= old(self).registry().settings().max_concurrent_downloads),
            r is Started <==> (old(self).registry().contains_id(id@) && !old(self).is_running(id@)
                && old(self).running().len() < old(self).registry().settings().max_concurrent_downloads),
            (r is NotFound || r is AlreadyRunning) ==> (final(self).registry() == old(self).registry() && final(self).running() == old(self).running()),
            r is Deferred ==> (queue_effect(old(self).registry(), final(self).registry(), id@, true)
                && final(self).running() == old(self).running()),
            r is Started ==> (final(self).registry() == old(self).registry() && final(self).running().len() == old(self).running().len() + 1 && final(self).running().last()@
                == id@ && final(self).running() == old(self).running().push(
                final(self).running().last(),
            ) && final(self).is_running(id@)),
    {
        if !self.registry.contains(id) {
            return StartOutcome::NotFound;
        }
        match self.running_index(id) {
            Some(_) => StartOutcome::AlreadyRunning,
            None => {
                let limit = self.registry.get_settings().max_concurrent_downloads;
                if self.running.len() >= limit as usize {
                    self.registry.mark_queued(id);
                    proof {
                        assert(self.running@ =~= old(self).running());
                        assert forall|i: int|
                            0 <= i < self.running@.len() implies self.registry.contains_id(
                            (#[trigger] self.running@[i])@,
                        ) by {
                            assert(old(self).registry().contains_id((old(self).running()[i])@));
                        }
                    }
                    StartOutcome::Deferred
                } else {
                    self.running.push(id.to_owned());
                    proof {
                        let n = old(self).running().len() as int;
                        assert(self.running@[n]@ == id@);
                    }
                    StartOutcome::Started
                }
            },
        }
    }

    /// Begins a transfer attempt for the task (the spawned unit's first step
    /// of each cycle).
    pub fn begin_attempt(&mut self, id: &str) -> (r: Option<AttemptInfo>)
        requires
            old(self).wf(),
        ensures
            final(self).wf(),
            begin_effect(old(self).registry(), final(self).registry(), id@, r),
            final(self).running() == old(self).running(),
    {
        let r = self.registry.begin_attempt(id);
        proof {
            assert(self.running@ =~= old(self).running());
            assert forall|i: int| 0 <= i < self.running@.len() implies self.registry.contains_id(
                (#[trigger] self.running@[i])@,
            ) by {
                assert(old(self).registry().contains_id((old(self).running()[i])@));
            }
        }
        r
    }

    /// Records a response's setup for the task.
    pub fn apply_attempt_setup(&mut self, id: &str, setup: &AttemptSetup) -> (applied: bool)
        requires
            old(self).wf(),
            setup.wf(),
        ensures
            final(self).wf(),
            setup_effect(old(self).registry(), final(self).registry(), id@, *setup, applied),
            final(self).running() == old(self).running(),
    {
        let applied = self.registry.apply_attempt_setup(id, setup);
        proof {
            assert(self.running@ =~= old(self).running());
            assert forall|i: int| 0 <= i < self.running@.len() implies self.registry.contains_id(
                (#[trigger] self.running@[i])@,
            ) by {
                assert(old(self).registry().contains_id((old(self).running()[i])@));
            }
        }
        applied
    }

    /// Publishes a progress sample for the task.
    pub fn record_progress(
        &mut self,
        id: &str,
        downloaded: u64,
        bytes_delta: u64,
        elapsed_ms: u64,
    ) -> (applied: bool)
        requires
            old(self).wf(),
        ensures
            final(self).wf(),
            progress_effect(
                old(self).registry(),
                final(self).registry(),
                id@,
                downloaded,
                bytes_delta,
                elapsed_ms,
                applied,
            ),
            final(self).running() == old(self).running(),
    {
        let applied = self.registry.record_progress(id, downloaded, bytes_delta, elapsed_ms);
        proof {
            assert(self.running@ =~= old(self).running());
            assert forall|i: int| 0 <= i < self.running@.len() implies self.registry.contains_id(
                (#[trigger] self.running@[i])@,
            ) by {
                assert(old(self).registry().contains_id((old(self).running()[i])@));
            }
        }
        applied
    }

    /// The task's stream ended; it moves to `Verifying`.
    pub fn mark_verifying(&mut self, id: &str) -> (applied: bool)
        requires
            old(self).wf(),
        ensures
            final(self).wf(),
            verifying_effect(old(self).registry(), final(self).registry(), id@, applied),
            final(self).running() == old(self).running(),
    {
        let applied = self.registry.mark_verifying(id);
        proof {
            assert(self.running@ =~= old(self).running());
            assert forall|i: int| 0 <= i < self.running@.len() implies self.registry.contains_id(
                (#[trigger] self.running@[i])@,
            ) by {
                assert(old(self).registry().contains_id((old(self).running()[i])@));
            }
        }
        applied
    }

    /// The size check passed; the task completes.
    pub fn mark_completed(&mut self, id: &str, now: i64) -> (applied: bool)
        requires
            old(self).wf(),
        ensures
            final(self).wf(),
            completed_effect(old(self).registry(), final(self).registry(), id@, now, applied),
            final(self).running() == old(self).running(),
    {
        let applied = self.registry.mark_completed(id, now);
        proof {
            assert(self.running@ =~= old(self).running());
            assert forall|i: int| 0 <= i < self.running@.len() implies self.registry.contains_id(
                (#[trigger] self.running@[i])@,
            ) by {
                assert(old(self).registry().contains_id((old(self).running()[i])@));
            }
        }
        applied
    }

    /// Finishes verification with the measured file size; the task completes
    /// exactly when the size matches.
    pub fn complete_verified(&mut self, id: &str, actual_size: u64, now: i64) -> (r: Option<
        Result<(), DownloadError>,
    >)
        requires
            old(self).wf(),
        ensures
            final(self).wf(),
            verification_effect(
                old(self).registry(),
                final(self).registry(),
                id@,
                actual_size,
                now,
                r,
            ),
            final(self).running() == old(self).running(),
    {
        let r = self.registry.complete_verified(id, actual_size, now);
        proof {
            assert(self.running@ =~= old(self).running());
            assert forall|i: int| 0 <= i < self.running@.len() implies self.registry.contains_id(
                (#[trigger] self.running@[i])@,
            ) by {
                assert(old(self).registry().contains_id((old(self).running()[i])@));
            }
        }
        r
    }

    /// An attempt failed; the policy's verdict is applied.
    pub fn on_attempt_failure(
        &mut self,
        id: &str,
        error: &DownloadError,
        duration_secs: u64,
    ) -> (r: Option<RetryDecision>)
        requires
            old(self).wf(),
        ensures
            final(self).wf(),
            failure_effect(
                old(self).registry(),
                final(self).registry(),
                id@,
                *error,
                duration_secs,
                r,
            ),
            final(self).running() == old(self).running(),
    {
        let r = self.registry.on_attempt_failure(id, error, duration_secs);
        proof {
            assert(self.running@ =~= old(self).running());
            assert forall|i: int| 0 <= i < self.running@.len() implies self.registry.contains_id(
                (#[trigger] self.running@[i])@,
            ) by {
                assert(old(self).registry().contains_id((old(self).running()[i])@));
            }
        }
        r
    }

    /// Drops `id` from the running set, keeping the other units in order.
    fn drop_running(&mut self, id: &str) -> (was_running: bool)
        requires
            old(self).wf(),
        ensures
            final(self).registry() == old(self).registry(),
            was_running == old(self).is_running(id@),
            !final(self).is_running(id@),
            was_running ==> exists|i: int|
                0 <= i < old(self).running().len() && (#[trigger] old(self).running()[i])@ == id@
                    && final(self).running() == old(self).running().remove(i),
            !was_running ==> final(self).running() == old(self).running(),
            forall|i: int, j: int|
                0 <= i < j < final(self).running().len() ==> final(self).running()[i]@ != final(self).running()[j]@,
            forall|i: int|
                0 <= i < final(self).running().len() ==> old(self).is_running(
                    (#[trigger] final(self).running()[i])@,
                ),
    {
        match self.running_index(id) {
            Some(i) => {
                self.running.remove(i);
                proof {
                    assert forall|j: int| 0 <= j < self.running@.len() implies (
                    #[trigger] self.running@[j])@ != id@ by {
                        if j < i {
                            assert(self.running@[j] == old(self).running()[j]);
                        } else {
                            assert(self.running@[j] == old(self).running()[j + 1]);
                        }
                    }
                    assert forall|j: int| 0 <= j < self.running@.len() implies old(self).is_running(
                        (#[trigger] self.running@[j])@,
                    ) by {
                        if j < i {
                            assert(old(self).running()[j]@ == self.running@[j]@);
                        } else {
                            assert(old(self).running()[j + 1]@ == self.running@[j]@);
                        }
                    }
                }
                true
            },
            None => false,
        }
    }

    /// The execution unit for `id` ended (success, terminal failure, or its
    /// task vanished): its slot frees up.
    pub fn finish_unit(&mut self, id: &str) -> (was_running: bool)
        requires
            old(self).wf(),
        ensures
            final(self).wf(),
            final(self).registry() == old(self).registry(),
            was_running == old(self).is_running(id@),
            !final(self).is_running(id@),
            was_running ==> final(self).running().len() == old(self).running().len() - 1,
            !was_running ==> final(self).running() == old(self).running(),
    {
        self.drop_running(id)
    }

    /// Pauses the task and retires its unit. The caller aborts the real
    /// execution handle when one was running.
    pub fn pause_download(&mut self, id: &str) -> (r: (bool, bool))
        requires
            old(self).wf(),
        ensures
            final(self).wf(),
            pause_effect(old(self).registry(), final(self).registry(), id@, r.0),
            r.1 == old(self).is_running(id@),
            !final(self).is_running(id@),
            r.1 ==> final(self).running().len() == old(self).running().len() - 1,
            !r.1 ==> final(self).running() == old(self).running(),
    {
        let was_running = self.drop_running(id);
        let found = self.registry.pause_download(id);
        proof {
            assert forall|i: int| 0 <= i < self.running@.len() implies self.registry.contains_id(
                (#[trigger] self.running@[i])@,
            ) by {
                let x = self.running@[i]@;
                assert(old(self).is_running(x));
                let j = choose|j: int|
                    0 <= j < old(self).running().len() && (#[trigger] old(self).running()[j])@ == x;
                assert(old(self).registry().contains_id((old(self).running()[j])@));
            }
        }
        (found, was_running)
    }

    /// Cancels the task outright: it leaves the registry, its unit retires,
    /// and nothing will ever be listed or written for this id again.
    pub fn cancel_download(&mut self, id: &str) -> (r: (bool, bool))
        requires
            old(self).wf(),
        ensures
            final(self).wf(),
            cancel_effect(old(self).registry(), final(self).registry(), id@, r.0),
            !final(self).registry().contains_id(id@),
            r.1 == old(self).is_running(id@),
            !final(self).is_running(id@),
            r.1 ==> final(self).running().len() == old(self).running().len() - 1,
            !r.1 ==> final(self).running() == old(self).running(),
    {
        let was_running = self.drop_running(id);
        let found = self.registry.cancel_download(id);
        proof {
            assert forall|i: int| 0 <= i < self.running@.len() implies self.registry.contains_id(
                (#[trigger] self.running@[i])@,
            ) by {
                assert(old(self).is_running(self.running@[i]@));
                assert(self.running@[i]@ != id@);
            }
        }
        (found, was_running)
    }

    /// The next task the freed slot should admit: the first queued task, in
    /// insertion order, that no unit is running.
    pub fn next_admission(&self) -> (r: Option<String>)
        ensures
            r matches Some(x) ==> exists|i: int|
                #![trigger self.registry().tasks()[i]]
                {
                    &&& 0 <= i < self.registry().tasks().len()
                    &&& self.registry().tasks()[i].id@ == x@
                    &&& self.registry().tasks()[i].status is Queued
                    &&& !self.is_running(x@)
                    &&& forall|j: int|
                        0 <= j < i ==> !((#[trigger] self.registry().tasks()[j]).status is Queued
                            && !self.is_running(self.registry().tasks()[j].id@))
                },
            r is None ==> forall|i: int|
                0 <= i < self.registry().tasks().len() ==> !((
                #[trigger] self.registry().tasks()[i]).status is Queued && !self.is_running(
                    self.registry().tasks()[i].id@,
                )),
    {
        let tasks = self.registry.get_all_downloads();
        let mut i: usize = 0;
        let len = tasks.len();
        while i < len
            invariant
                len == tasks@.len(),
                tasks@ == self.registry().tasks(),
                i <= len,
                forall|j: int|
                    0 <= j < i ==> !((#[trigger] self.registry().tasks()[j]).status is Queued
                        && !self.is_running(self.registry().tasks()[j].id@)),
            decreases len - i,
        {
            let queued = match tasks[i].status {
                crate::task::DownloadStatus::Queued => true,
                _ => false,
            };
            if queued {
                match self.running_index(tasks[i].id.as_str()) {
                    None => {
                        return Some(tasks[i].id.clone());
                    },
                    Some(_) => {},
                }
            }
            i = i + 1;
        }
        None
    }

    /// The whole registry content, ready to persist.
    pub fn to_state(&self) -> (s: PersistentState)
        ensures
            s.downloads@ == self.registry().tasks(),
            s.settings == self.registry().settings(),
    {
        self.registry.to_state()
    }
}

} // verus!
