use velodown::task::{DownloadStatus, DownloadTask};
use velodown::registry::task_is_wf;

fn fresh_task(total: u64) -> DownloadTask {
    DownloadTask::new(
        "task-1".to_string(),
        "https://example.test/file.bin".to_string(),
        "file.bin".to_string(),
        "/tmp/downloads".to_string(),
        total,
        "Other".to_string(),
        8,
        1000,
    )
}

#[test]
fn new_task_starts_queued_and_empty() {
    let t = fresh_task(500);
    assert_eq!(t.status, DownloadStatus::Queued);
    assert_eq!(t.progress_bp, 0);
    assert_eq!(t.downloaded_size, 0);
    assert_eq!(t.speed, 0);
    assert_eq!(t.time_remaining, None);
    assert_eq!(t.resume_capability, false);
    assert_eq!(t.error_message, None);
    assert_eq!(t.completed_at, None);
    assert_eq!(t.resume_attempts, 0);
    assert!(task_is_wf(&t));
}

#[test]
fn first_attempt_does_not_count() {
    let mut t = fresh_task(500);
    t.begin_attempt();
    assert_eq!(t.status, DownloadStatus::Downloading);
    assert_eq!(t.resume_attempts, 0);
}

#[test]
fn later_attempts_count() {
    let mut t = fresh_task(500);
    t.begin_attempt();
    t.mark_retrying("again".to_string());
    t.begin_attempt();
    assert_eq!(t.resume_attempts, 1);
    t.mark_retrying("again".to_string());
    t.begin_attempt();
    assert_eq!(t.resume_attempts, 2);
}

#[test]
fn resume_from_paused_does_not_count_an_attempt() {
    let mut t = fresh_task(500);
    t.begin_attempt();
    t.mark_paused();
    assert_eq!(t.status, DownloadStatus::Paused);
    assert_eq!(t.speed, 0);
    t.begin_attempt();
    assert_eq!(t.status, DownloadStatus::Downloading);
    assert_eq!(t.resume_attempts, 0);
}

#[test]
fn resume_after_failure_counts_an_attempt() {
    let mut t = fresh_task(500);
    t.begin_attempt();
    t.mark_failed("gone".to_string());
    t.begin_attempt();
    assert_eq!(t.status, DownloadStatus::Downloading);
    assert_eq!(t.resume_attempts, 1);
}

#[test]
fn pause_keeps_downloaded_bytes() {
    let mut t = fresh_task(1000);
    t.begin_attempt();
    t.record_progress(400, 400, 1000);
    assert_eq!(t.downloaded_size, 400);
    t.mark_paused();
    assert_eq!(t.downloaded_size, 400);
    assert_eq!(t.speed, 0);
    assert!(task_is_wf(&t));
}

#[test]
fn progress_is_share_of_total() {
    let mut t = fresh_task(1000);
    t.begin_attempt();
    t.record_progress(250, 250, 1000);
    assert_eq!(t.progress_bp, 2500);
    t.record_progress(999, 749, 1000);
    assert_eq!(t.progress_bp, 9990);
    assert!(t.downloaded_size <= t.total_size);
}

#[test]
fn progress_is_zero_while_total_unknown() {
    let mut t = fresh_task(0);
    t.begin_attempt();
    t.record_progress(123456, 123456, 1000);
    assert_eq!(t.progress_bp, 0);
    assert!(task_is_wf(&t));
}

#[test]
fn progress_at_largest_sizes() {
    let mut t = fresh_task(u64::MAX);
    t.begin_attempt();
    t.record_progress(u64::MAX, u64::MAX, 1);
    assert_eq!(t.progress_bp, 10000);
}

#[test]
fn completion_fills_the_record() {
    let mut t = fresh_task(1000);
    t.begin_attempt();
    t.record_progress(1000, 1000, 1000);
    t.mark_verifying();
    assert_eq!(t.status, DownloadStatus::Verifying);
    t.mark_completed(777);
    assert_eq!(t.status, DownloadStatus::Completed);
    assert_eq!(t.downloaded_size, 1000);
    assert_eq!(t.progress_bp, 10000);
    assert_eq!(t.speed, 0);
    assert_eq!(t.time_remaining, None);
    assert_eq!(t.completed_at, Some(777));
    assert!(task_is_wf(&t));
}

#[test]
fn error_message_exists_exactly_while_failed_or_retrying() {
    let mut t = fresh_task(100);
    t.begin_attempt();
    assert_eq!(t.error_message, None);
    t.mark_failed("gone".to_string());
    assert_eq!(t.error_message, Some("gone".to_string()));
    assert!(task_is_wf(&t));
    t.begin_attempt();
    assert_eq!(t.error_message, None);
    t.mark_retrying("wait".to_string());
    assert_eq!(t.error_message, Some("wait".to_string()));
    assert!(task_is_wf(&t));
    t.begin_attempt();
    t.mark_verifying();
    assert_eq!(t.error_message, None);
}

#[test]
fn wf_check_rejects_broken_records() {
    let mut t = fresh_task(100);
    t.downloaded_size = 200;
    assert!(!task_is_wf(&t));

    let mut t = fresh_task(100);
    t.progress_bp = 5000;
    assert!(!task_is_wf(&t));

    let mut t = fresh_task(100);
    t.error_message = Some("stray".to_string());
    assert!(!task_is_wf(&t));

    let mut t = fresh_task(100);
    t.speed = 10;
    assert!(!task_is_wf(&t));
}
