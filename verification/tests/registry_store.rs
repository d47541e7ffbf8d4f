use velodown::errors::DownloadError;
use velodown::policy::RetryDecision;
use velodown::registry::{PersistentState, Registry};
use velodown::settings::AppSettings;
use velodown::task::{DownloadStatus, DownloadTask};

fn settings() -> AppSettings {
    AppSettings {
        download_folder: "/tmp/downloads".to_string(),
        max_concurrent_downloads: 4,
        max_connections_per_download: 8,
        auto_start: true,
        show_notifications: true,
        min_split_size: 10 * 1024 * 1024,
        auto_resume_downloads: true,
        max_resume_attempts: 2,
        resume_delay_seconds: 7,
        min_fail_duration_seconds: 20,
    }
}

fn task(id: &str, total: u64) -> DownloadTask {
    DownloadTask::new(
        id.to_string(),
        "https://example.test/file.bin".to_string(),
        "file.bin".to_string(),
        "/tmp/downloads".to_string(),
        total,
        "Other".to_string(),
        8,
        1000,
    )
}

#[test]
fn added_tasks_are_listed_in_order() {
    let mut reg = Registry::new(settings());
    assert!(reg.add_task(task("task-a", 10)));
    assert!(reg.add_task(task("task-b", 20)));
    let all = reg.get_all_downloads();
    assert_eq!(all.len(), 2);
    assert_eq!(all[0].id, "task-a".to_string());
    assert_eq!(all[1].id, "task-b".to_string());
}

#[test]
fn duplicate_ids_are_refused() {
    let mut reg = Registry::new(settings());
    assert!(reg.add_task(task("task-a", 10)));
    assert!(!reg.add_task(task("task-a", 20)));
    assert_eq!(reg.get_all_downloads().len(), 1);
}

#[test]
fn get_task_finds_by_id() {
    let mut reg = Registry::new(settings());
    reg.add_task(task("task-a", 10));
    reg.add_task(task("task-b", 20));
    let t = reg.get_task("task-b").unwrap();
    assert_eq!(t.total_size, 20);
    assert!(reg.get_task("task-c").is_none());
    assert!(reg.contains("task-a"));
    assert!(!reg.contains("task-c"));
}

#[test]
fn cancel_removes_the_task_from_the_listing() {
    let mut reg = Registry::new(settings());
    reg.add_task(task("task-a", 10));
    reg.add_task(task("task-b", 20));
    assert!(reg.cancel_download("task-a"));
    let all = reg.get_all_downloads();
    assert_eq!(all.len(), 1);
    assert_eq!(all[0].id, "task-b".to_string());
    assert!(!reg.contains("task-a"));
    assert!(!reg.cancel_download("task-a"));
}

#[test]
fn engine_updates_after_cancel_are_ignored() {
    let mut reg = Registry::new(settings());
    reg.add_task(task("task-a", 1000));
    assert!(reg.begin_attempt("task-a").is_some());
    assert!(reg.cancel_download("task-a"));
    // The unit's late writes no longer land anywhere.
    assert!(!reg.record_progress("task-a", 100, 100, 1000));
    assert!(!reg.mark_verifying("task-a"));
    assert!(reg.on_attempt_failure(
        "task-a",
        &DownloadError::Server { status: 500 },
        30
    ).is_none());
}

#[test]
fn engine_updates_after_pause_are_ignored() {
    let mut reg = Registry::new(settings());
    reg.add_task(task("task-a", 1000));
    reg.begin_attempt("task-a");
    assert!(reg.record_progress("task-a", 100, 100, 1000));
    assert!(reg.pause_download("task-a"));
    assert!(!reg.record_progress("task-a", 200, 100, 1000));
    let t = reg.get_task("task-a").unwrap();
    assert_eq!(t.status, DownloadStatus::Paused);
    assert_eq!(t.downloaded_size, 100);
}

#[test]
fn backwards_or_overshooting_samples_are_refused() {
    let mut reg = Registry::new(settings());
    reg.add_task(task("task-a", 1000));
    reg.begin_attempt("task-a");
    assert!(reg.record_progress("task-a", 300, 300, 1000));
    assert!(!reg.record_progress("task-a", 200, 0, 1000));
    assert!(!reg.record_progress("task-a", 1500, 1200, 1000));
    assert_eq!(reg.get_task("task-a").unwrap().downloaded_size, 300);
}

#[test]
fn retry_exhaustion_follows_the_budget() {
    // Two retries are budgeted: the third failed attempt is terminal.
    let mut reg = Registry::new(settings());
    reg.add_task(task("task-a", 1000));
    let e = DownloadError::Connection { detail: "reset".to_string() };

    let info = reg.begin_attempt("task-a").unwrap();
    assert_eq!(info.attempts, 0);
    assert_eq!(
        reg.on_attempt_failure("task-a", &e, 30),
        Some(RetryDecision::RetryAfter { delay_seconds: 7 })
    );
    let t = reg.get_task("task-a").unwrap();
    assert_eq!(t.status, DownloadStatus::Retrying);
    assert_eq!(
        t.error_message,
        Some("Network error. Retrying in 7s... (Attempt 0)".to_string())
    );

    let info = reg.begin_attempt("task-a").unwrap();
    assert_eq!(info.attempts, 1);
    assert_eq!(
        reg.on_attempt_failure("task-a", &e, 30),
        Some(RetryDecision::RetryAfter { delay_seconds: 7 })
    );
    assert_eq!(reg.get_task("task-a").unwrap().status, DownloadStatus::Retrying);

    let info = reg.begin_attempt("task-a").unwrap();
    assert_eq!(info.attempts, 2);
    assert_eq!(
        reg.on_attempt_failure("task-a", &e, 30),
        Some(RetryDecision::FailPermanently)
    );
    let t = reg.get_task("task-a").unwrap();
    assert_eq!(t.status, DownloadStatus::Failed);
    assert_eq!(t.resume_attempts, 2);
    assert_eq!(t.error_message, Some("Failed to connect: reset".to_string()));
}

#[test]
fn http_404_fails_on_the_first_attempt() {
    let mut reg = Registry::new(settings());
    reg.add_task(task("task-a", 1000));
    reg.begin_attempt("task-a");
    assert_eq!(
        reg.on_attempt_failure("task-a", &DownloadError::Server { status: 404 }, 30),
        Some(RetryDecision::FailPermanently)
    );
    let t = reg.get_task("task-a").unwrap();
    assert_eq!(t.status, DownloadStatus::Failed);
    assert_eq!(t.error_message, Some("Server returned an error: 404".to_string()));
}

#[test]
fn http_500_then_success_accumulates_one_attempt() {
    let mut reg = Registry::new(settings());
    reg.add_task(task("task-a", 1000));

    reg.begin_attempt("task-a");
    assert_eq!(
        reg.on_attempt_failure("task-a", &DownloadError::Server { status: 500 }, 30),
        Some(RetryDecision::RetryAfter { delay_seconds: 7 })
    );
    assert_eq!(reg.get_task("task-a").unwrap().status, DownloadStatus::Retrying);

    let info = reg.begin_attempt("task-a").unwrap();
    assert_eq!(info.attempts, 1);
    assert_eq!(reg.get_task("task-a").unwrap().status, DownloadStatus::Downloading);
    assert!(reg.record_progress("task-a", 1000, 1000, 1000));
    assert!(reg.mark_verifying("task-a"));
    assert!(reg.mark_completed("task-a", 999));
    let t = reg.get_task("task-a").unwrap();
    assert_eq!(t.status, DownloadStatus::Completed);
    assert_eq!(t.resume_attempts, 1);
}

#[test]
fn completion_only_lands_from_verifying() {
    let mut reg = Registry::new(settings());
    reg.add_task(task("task-a", 1000));
    assert!(!reg.mark_completed("task-a", 999));
    reg.begin_attempt("task-a");
    assert!(!reg.mark_completed("task-a", 999));
    assert!(reg.mark_verifying("task-a"));
    assert!(reg.mark_completed("task-a", 999));
}

#[test]
fn settings_update_keeps_tasks() {
    let mut reg = Registry::new(settings());
    reg.add_task(task("task-a", 10));
    let mut s = settings();
    s.resume_delay_seconds = 99;
    reg.update_settings(s);
    assert_eq!(reg.get_settings().resume_delay_seconds, 99);
    assert_eq!(reg.get_all_downloads().len(), 1);
}

#[test]
fn save_then_load_reproduces_every_field() {
    let mut reg = Registry::new(settings());
    reg.add_task(task("task-a", 1000));
    reg.add_task(task("task-b", 0));
    reg.begin_attempt("task-a");
    reg.record_progress("task-a", 400, 400, 1000);
    reg.pause_download("task-a");
    reg.begin_attempt("task-b");
    reg.on_attempt_failure("task-b", &DownloadError::Server { status: 404 }, 30);

    let saved = reg.to_state();
    let loaded = Registry::from_state(saved).unwrap();
    assert_eq!(loaded.get_all_downloads(), reg.get_all_downloads());
    assert_eq!(loaded.get_settings(), reg.get_settings());
}

#[test]
fn loading_refuses_broken_states() {
    let mut bad = task("task-a", 100);
    bad.downloaded_size = 200;
    let state = PersistentState { downloads: vec![bad], settings: settings() };
    assert!(Registry::from_state(state).is_none());

    let dup = PersistentState {
        downloads: vec![task("task-a", 10), task("task-a", 20)],
        settings: settings(),
    };
    assert!(Registry::from_state(dup).is_none());
}

#[test]
fn loading_an_empty_state_gives_an_empty_registry() {
    let state = PersistentState::default();
    let reg = Registry::from_state(state).unwrap();
    assert_eq!(reg.get_all_downloads().len(), 0);
}

#[test]
fn verification_completes_on_a_matching_size() {
    let mut reg = Registry::new(settings());
    reg.add_task(task("task-a", 1000));
    reg.begin_attempt("task-a");
    reg.record_progress("task-a", 1000, 1000, 1000);
    assert!(reg.mark_verifying("task-a"));
    assert_eq!(reg.complete_verified("task-a", 1000, 55), Some(Ok(())));
    let t = reg.get_task("task-a").unwrap();
    assert_eq!(t.status, DownloadStatus::Completed);
    assert_eq!(t.downloaded_size, 1000);
    assert_eq!(t.completed_at, Some(55));
}

#[test]
fn verification_rejects_a_short_file() {
    let mut reg = Registry::new(settings());
    reg.add_task(task("task-a", 1000));
    reg.begin_attempt("task-a");
    reg.record_progress("task-a", 900, 900, 1000);
    assert!(reg.mark_verifying("task-a"));
    assert_eq!(
        reg.complete_verified("task-a", 900, 55),
        Some(Err(DownloadError::SizeMismatch { expected: 1000, actual: 900 }))
    );
    // The record is untouched; the retry policy now decides, and a size
    // mismatch is permanent.
    assert_eq!(reg.get_task("task-a").unwrap().status, DownloadStatus::Verifying);
    assert_eq!(
        reg.on_attempt_failure(
            "task-a",
            &DownloadError::SizeMismatch { expected: 1000, actual: 900 },
            30
        ),
        Some(RetryDecision::FailPermanently)
    );
    assert_eq!(reg.get_task("task-a").unwrap().status, DownloadStatus::Failed);
}

#[test]
fn verification_with_unknown_total_accepts_any_size() {
    let mut reg = Registry::new(settings());
    reg.add_task(task("task-a", 0));
    reg.begin_attempt("task-a");
    reg.record_progress("task-a", 777, 777, 1000);
    assert!(reg.mark_verifying("task-a"));
    assert_eq!(reg.complete_verified("task-a", 777, 55), Some(Ok(())));
    let t = reg.get_task("task-a").unwrap();
    assert_eq!(t.status, DownloadStatus::Completed);
    assert_eq!(t.progress_bp, 0);
}
