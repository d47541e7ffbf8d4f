use velodown::orchestrator::{Orchestrator, StartOutcome};
use velodown::registry::Registry;
use velodown::settings::AppSettings;
use velodown::task::{DownloadStatus, DownloadTask};
use velodown::transfer::{attempt_request, attempt_setup, verify_size};

fn settings(max_concurrent: u32) -> AppSettings {
    AppSettings {
        download_folder: "/tmp/downloads".to_string(),
        max_concurrent_downloads: max_concurrent,
        max_connections_per_download: 8,
        auto_start: true,
        show_notifications: true,
        min_split_size: 10 * 1024 * 1024,
        auto_resume_downloads: true,
        max_resume_attempts: 5,
        resume_delay_seconds: 10,
        min_fail_duration_seconds: 20,
    }
}

fn task(id: &str, total: u64) -> DownloadTask {
    DownloadTask::new(
        id.to_string(),
        "https://example.test/file.bin".to_string(),
        "file.bin".to_string(),
        "/tmp/downloads".to_string(),
        total,
        "Other".to_string(),
        8,
        1000,
    )
}

fn orchestrator(max_concurrent: u32) -> Orchestrator {
    Orchestrator::new(Registry::new(settings(max_concurrent)))
}

#[test]
fn start_outcomes() {
    let mut orch = orchestrator(4);
    assert_eq!(orch.start_download("task-a"), StartOutcome::NotFound);
    orch.add_task(task("task-a", 10));
    assert_eq!(orch.start_download("task-a"), StartOutcome::Started);
    assert_eq!(orch.start_download("task-a"), StartOutcome::AlreadyRunning);
}

#[test]
fn the_ceiling_defers_starts() {
    let mut orch = orchestrator(1);
    orch.add_task(task("task-a", 10));
    orch.add_task(task("task-b", 10));
    assert_eq!(orch.start_download("task-a"), StartOutcome::Started);
    assert_eq!(orch.start_download("task-b"), StartOutcome::Deferred);
    let b = orch.get_task("task-b").unwrap();
    assert_eq!(b.status, DownloadStatus::Queued);
}

#[test]
fn a_freed_slot_admits_the_first_queued_task() {
    let mut orch = orchestrator(1);
    orch.add_task(task("task-a", 10));
    orch.add_task(task("task-b", 10));
    orch.add_task(task("task-c", 10));
    assert_eq!(orch.start_download("task-a"), StartOutcome::Started);
    assert_eq!(orch.start_download("task-b"), StartOutcome::Deferred);
    assert_eq!(orch.start_download("task-c"), StartOutcome::Deferred);
    orch.begin_attempt("task-a");
    orch.record_progress("task-a", 10, 10, 100);
    orch.mark_verifying("task-a");
    orch.mark_completed("task-a", 1);
    assert!(orch.finish_unit("task-a"));
    // Admission is first-in-first-out over the queued tasks.
    assert_eq!(orch.next_admission(), Some("task-b".to_string()));
    assert_eq!(orch.start_download("task-b"), StartOutcome::Started);
    assert_eq!(orch.next_admission(), Some("task-c".to_string()));
}

#[test]
fn no_admission_without_queued_tasks() {
    let mut orch = orchestrator(2);
    orch.add_task(task("task-a", 10));
    assert_eq!(orch.start_download("task-a"), StartOutcome::Started);
    assert_eq!(orch.next_admission(), None);
}

#[test]
fn pause_retires_the_unit_and_keeps_the_task() {
    let mut orch = orchestrator(4);
    orch.add_task(task("task-a", 1000));
    orch.start_download("task-a");
    orch.begin_attempt("task-a");
    orch.record_progress("task-a", 300, 300, 1000);
    let (found, was_running) = orch.pause_download("task-a");
    assert!(found);
    assert!(was_running);
    let t = orch.get_task("task-a").unwrap();
    assert_eq!(t.status, DownloadStatus::Paused);
    assert_eq!(t.downloaded_size, 300);
    // Pausing again finds the task but no unit.
    let (found, was_running) = orch.pause_download("task-a");
    assert!(found);
    assert!(!was_running);
}

#[test]
fn cancel_removes_the_task_and_its_unit() {
    let mut orch = orchestrator(4);
    orch.add_task(task("task-a", 1000));
    orch.start_download("task-a");
    orch.begin_attempt("task-a");
    let (found, was_running) = orch.cancel_download("task-a");
    assert!(found);
    assert!(was_running);
    assert!(orch.get_task("task-a").is_none());
    assert_eq!(orch.get_all_downloads().len(), 0);
    // Any late engine write for the id is a no-op.
    assert!(!orch.record_progress("task-a", 600, 300, 1000));
    assert_eq!(orch.start_download("task-a"), StartOutcome::NotFound);
}

#[test]
fn add_download_builds_a_queued_task_from_the_settings() {
    let mut orch = orchestrator(4);
    let t = orch
        .add_download(
            "https://example.test/movie.mkv".to_string(),
            "movie.mkv".to_string(),
            Some(5000),
            None,
        )
        .unwrap();
    assert_eq!(t.status, DownloadStatus::Queued);
    assert_eq!(t.total_size, 5000);
    assert_eq!(t.save_path, "/tmp/downloads".to_string());
    assert_eq!(t.connections, 8);
    assert_eq!(t.file_type, "Video".to_string());
    assert_eq!(t.id.len(), 41);
    assert!(t.id.starts_with("task-"));
    assert_eq!(orch.get_all_downloads().len(), 1);

    // A second download draws a different id.
    let u = orch
        .add_download(
            "https://example.test/notes.txt".to_string(),
            "notes.txt".to_string(),
            None,
            Some("/data".to_string()),
        )
        .unwrap();
    assert_ne!(t.id, u.id);
    assert_eq!(u.total_size, 0);
    assert_eq!(u.save_path, "/data".to_string());
    assert_eq!(u.file_type, "Document".to_string());
}

#[test]
fn full_download_scenario() {
    // A server reports Content-Length: 1000 and supports ranges.
    let mut orch = orchestrator(4);
    let t = orch
        .add_download(
            "https://example.test/file.bin".to_string(),
            "file.bin".to_string(),
            Some(1000),
            None,
        )
        .unwrap();
    let id = t.id.clone();
    assert_eq!(t.status, DownloadStatus::Queued);

    assert_eq!(orch.start_download(&id), StartOutcome::Started);
    let info = orch.begin_attempt(&id).unwrap();
    assert_eq!(info.resume_from, 0);
    assert_eq!(orch.get_task(&id).unwrap().status, DownloadStatus::Downloading);

    let req = attempt_request(&orch.get_task(&id).unwrap());
    assert_eq!(req.range_header, None);

    let setup = attempt_setup(info.resume_from, 200, &Some("bytes".to_string()), &Some(1000))
        .unwrap();
    assert!(orch.apply_attempt_setup(&id, &setup));
    let snapshot = orch.get_task(&id).unwrap();
    assert_eq!(snapshot.total_size, 1000);
    assert!(snapshot.resume_capability);

    assert!(orch.record_progress(&id, 600, 600, 1000));
    assert!(orch.record_progress(&id, 1000, 400, 1000));
    assert!(orch.mark_verifying(&id));
    assert_eq!(orch.get_task(&id).unwrap().status, DownloadStatus::Verifying);

    assert_eq!(verify_size(1000, 1000), Ok(()));
    assert!(orch.mark_completed(&id, 424242));
    assert!(orch.finish_unit(&id));

    let done = orch.get_task(&id).unwrap();
    assert_eq!(done.status, DownloadStatus::Completed);
    assert_eq!(done.downloaded_size, 1000);
    assert_eq!(done.progress_bp, 10000);
    assert_eq!(done.speed, 0);
    assert_eq!(done.completed_at, Some(424242));
}

#[test]
fn resumed_scenario_reaches_the_full_size() {
    let mut orch = orchestrator(4);
    orch.add_task(task("task-a", 1000));
    orch.start_download("task-a");
    orch.begin_attempt("task-a");
    let setup = attempt_setup(0, 200, &Some("bytes".to_string()), &Some(1000)).unwrap();
    orch.apply_attempt_setup("task-a", &setup);
    orch.record_progress("task-a", 400, 400, 1000);
    orch.pause_download("task-a");

    // Resume: the request asks for bytes from 400, the server answers 206
    // with the remaining 600 bytes.
    orch.start_download("task-a");
    let info = orch.begin_attempt("task-a").unwrap();
    assert_eq!(info.resume_from, 400);
    // A resume after a user's pause does not burn retry budget.
    assert_eq!(info.attempts, 0);
    let req = attempt_request(&orch.get_task("task-a").unwrap());
    assert_eq!(req.range_header, Some("bytes=400-".to_string()));
    let setup = attempt_setup(info.resume_from, 206, &Some("bytes".to_string()), &Some(600))
        .unwrap();
    assert!(orch.apply_attempt_setup("task-a", &setup));
    assert!(orch.record_progress("task-a", 1000, 600, 1000));
    assert!(orch.mark_verifying("task-a"));
    assert_eq!(verify_size(1000, 1000), Ok(()));
    assert!(orch.mark_completed("task-a", 5));
    let t = orch.get_task("task-a").unwrap();
    assert_eq!(t.downloaded_size, t.total_size);
    assert_eq!(t.total_size, 1000);
}
