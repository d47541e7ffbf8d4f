use velodown::errors::DownloadError;
use velodown::task::{compute_progress_bp, DownloadTask};
use velodown::transfer::{
    attempt_request, attempt_setup, compute_progress_sample, range_header_value, verify_size,
};

fn fresh_task(total: u64) -> DownloadTask {
    DownloadTask::new(
        "task-1".to_string(),
        "https://example.test/file.bin".to_string(),
        "file.bin".to_string(),
        "/tmp/downloads".to_string(),
        total,
        "Other".to_string(),
        8,
        1000,
    )
}

#[test]
fn fresh_attempt_sends_no_range_header() {
    let t = fresh_task(1000);
    let req = attempt_request(&t);
    assert_eq!(req.resume_from, 0);
    assert_eq!(req.range_header, None);
    assert_eq!(req.url, "https://example.test/file.bin".to_string());
}

#[test]
fn resumed_attempt_asks_for_bytes_from_the_offset() {
    let mut t = fresh_task(1000);
    t.begin_attempt();
    t.record_progress(400, 400, 1000);
    t.mark_paused();
    t.begin_attempt();
    let req = attempt_request(&t);
    assert_eq!(req.resume_from, 400);
    assert_eq!(req.range_header, Some("bytes=400-".to_string()));
}

#[test]
fn range_header_renders_the_offset_in_decimal() {
    assert_eq!(range_header_value(0), "bytes=0-".to_string());
    assert_eq!(range_header_value(7), "bytes=7-".to_string());
    assert_eq!(range_header_value(1048576), "bytes=1048576-".to_string());
    assert_eq!(
        range_header_value(u64::MAX),
        "bytes=18446744073709551615-".to_string()
    );
}

#[test]
fn setup_reads_partial_content_totals() {
    // Resuming at 400 and the server honours the range: 600 more bytes.
    let setup = attempt_setup(400, 206, &Some("bytes".to_string()), &Some(600)).unwrap();
    assert_eq!(setup.total_size, 1000);
    assert_eq!(setup.write_offset, 400);
    assert!(setup.resume_capability);
}

#[test]
fn setup_restarts_when_the_server_ignores_the_range() {
    // The server answered 200 to a range request: the body is the whole file.
    let setup = attempt_setup(400, 200, &Some("bytes".to_string()), &Some(1000)).unwrap();
    assert_eq!(setup.total_size, 1000);
    assert_eq!(setup.write_offset, 0);
}

#[test]
fn setup_reads_resume_capability_from_the_header() {
    let s = attempt_setup(0, 200, &Some("bytes".to_string()), &Some(10)).unwrap();
    assert!(s.resume_capability);
    let s = attempt_setup(0, 200, &Some("none".to_string()), &Some(10)).unwrap();
    assert!(!s.resume_capability);
    let s = attempt_setup(0, 200, &None, &Some(10)).unwrap();
    assert!(!s.resume_capability);
}

#[test]
fn setup_with_no_content_length_leaves_total_unknown() {
    let s = attempt_setup(0, 200, &None, &None).unwrap();
    assert_eq!(s.total_size, 0);
}

#[test]
fn setup_classifies_authorization_failures() {
    assert_eq!(
        attempt_setup(0, 401, &None, &None),
        Err(DownloadError::Authorization { status: 401 })
    );
    assert_eq!(
        attempt_setup(0, 403, &None, &None),
        Err(DownloadError::Authorization { status: 403 })
    );
}

#[test]
fn setup_classifies_server_errors() {
    assert_eq!(attempt_setup(0, 404, &None, &None), Err(DownloadError::Server { status: 404 }));
    assert_eq!(attempt_setup(0, 500, &None, &None), Err(DownloadError::Server { status: 500 }));
    assert_eq!(attempt_setup(0, 301, &None, &None), Err(DownloadError::Server { status: 301 }));
}

#[test]
fn sample_computes_rate_remaining_and_progress() {
    // 250 new bytes over half a second: 500 bytes per second.
    let s = compute_progress_sample(500, 1000, 250, 500);
    assert_eq!(s.downloaded, 500);
    assert_eq!(s.speed, 500);
    assert_eq!(s.time_remaining, Some(1));
    assert_eq!(s.progress_bp, 5000);
}

#[test]
fn sample_with_no_rate_gives_no_estimate() {
    let s = compute_progress_sample(500, 1000, 0, 500);
    assert_eq!(s.speed, 0);
    assert_eq!(s.time_remaining, None);
}

#[test]
fn sample_with_unknown_total_has_no_progress_or_estimate() {
    let s = compute_progress_sample(500, 0, 250, 500);
    assert_eq!(s.progress_bp, 0);
    assert_eq!(s.time_remaining, None);
}

#[test]
fn sample_rate_saturates() {
    let s = compute_progress_sample(0, 0, u64::MAX, 1);
    assert_eq!(s.speed, u64::MAX);
}

#[test]
fn progress_formula_examples() {
    assert_eq!(compute_progress_bp(0, 1000), 0);
    assert_eq!(compute_progress_bp(1, 3), 3333);
    assert_eq!(compute_progress_bp(1000, 1000), 10000);
    assert_eq!(compute_progress_bp(12345, 0), 0);
}

#[test]
fn size_check_accepts_exact_and_unknown() {
    assert_eq!(verify_size(1000, 1000), Ok(()));
    assert_eq!(verify_size(0, 424242), Ok(()));
}

#[test]
fn size_check_rejects_mismatches() {
    assert_eq!(
        verify_size(1000, 999),
        Err(DownloadError::SizeMismatch { expected: 1000, actual: 999 })
    );
    assert_eq!(
        verify_size(1000, 1001),
        Err(DownloadError::SizeMismatch { expected: 1000, actual: 1001 })
    );
}
