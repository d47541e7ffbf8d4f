use velodown::errors::DownloadError;
use velodown::policy::{classify_attempt_failure, is_permanent, RetryDecision};
use velodown::settings::AppSettings;

fn settings(auto_resume: bool, max_attempts: u8, delay: u64, min_fail: u64) -> AppSettings {
    AppSettings {
        download_folder: "/tmp/downloads".to_string(),
        max_concurrent_downloads: 4,
        max_connections_per_download: 8,
        auto_start: true,
        show_notifications: true,
        min_split_size: 10 * 1024 * 1024,
        auto_resume_downloads: auto_resume,
        max_resume_attempts: max_attempts,
        resume_delay_seconds: delay,
        min_fail_duration_seconds: min_fail,
    }
}

#[test]
fn transient_error_is_retried_with_the_configured_delay() {
    let s = settings(true, 5, 10, 20);
    let e = DownloadError::Connection { detail: "reset".to_string() };
    let d = classify_attempt_failure(&e, 0, 30, &s);
    assert_eq!(d, RetryDecision::RetryAfter { delay_seconds: 10 });
}

#[test]
fn http_404_fails_permanently_with_budget_left() {
    let s = settings(true, 5, 10, 20);
    let e = DownloadError::Server { status: 404 };
    assert_eq!(classify_attempt_failure(&e, 0, 30, &s), RetryDecision::FailPermanently);
    assert_eq!(classify_attempt_failure(&e, 3, 30, &s), RetryDecision::FailPermanently);
}

#[test]
fn http_403_and_authorization_fail_permanently() {
    let s = settings(true, 5, 10, 20);
    let forbidden = DownloadError::Server { status: 403 };
    assert_eq!(classify_attempt_failure(&forbidden, 0, 30, &s), RetryDecision::FailPermanently);
    let auth = DownloadError::Authorization { status: 401 };
    assert_eq!(classify_attempt_failure(&auth, 0, 30, &s), RetryDecision::FailPermanently);
}

#[test]
fn size_mismatch_is_permanent() {
    let s = settings(true, 5, 10, 20);
    let e = DownloadError::SizeMismatch { expected: 10, actual: 7 };
    assert!(is_permanent(&e));
    assert_eq!(classify_attempt_failure(&e, 0, 30, &s), RetryDecision::FailPermanently);
}

#[test]
fn http_500_is_transient() {
    let s = settings(true, 5, 10, 20);
    let e = DownloadError::Server { status: 500 };
    assert!(!is_permanent(&e));
    assert_eq!(
        classify_attempt_failure(&e, 1, 30, &s),
        RetryDecision::RetryAfter { delay_seconds: 10 }
    );
}

#[test]
fn disabled_auto_resume_never_retries() {
    let s = settings(false, 5, 10, 20);
    let e = DownloadError::Connection { detail: "reset".to_string() };
    assert_eq!(classify_attempt_failure(&e, 0, 30, &s), RetryDecision::FailPermanently);
}

#[test]
fn spent_budget_never_retries() {
    let s = settings(true, 3, 10, 20);
    let e = DownloadError::Connection { detail: "reset".to_string() };
    assert_eq!(classify_attempt_failure(&e, 3, 30, &s), RetryDecision::FailPermanently);
    assert_eq!(classify_attempt_failure(&e, 4, 30, &s), RetryDecision::FailPermanently);
}

#[test]
fn fast_failure_after_the_first_attempt_is_permanent() {
    let s = settings(true, 5, 10, 20);
    let e = DownloadError::Connection { detail: "reset".to_string() };
    // A fast first attempt is still retried; a fast later one is not.
    assert_eq!(
        classify_attempt_failure(&e, 0, 1, &s),
        RetryDecision::RetryAfter { delay_seconds: 10 }
    );
    assert_eq!(classify_attempt_failure(&e, 1, 1, &s), RetryDecision::FailPermanently);
}

#[test]
fn disk_errors_are_transient() {
    let s = settings(true, 5, 10, 20);
    let e = DownloadError::Io { detail: "no space".to_string() };
    assert_eq!(
        classify_attempt_failure(&e, 0, 30, &s),
        RetryDecision::RetryAfter { delay_seconds: 10 }
    );
}

#[test]
fn error_messages_render_their_cause() {
    assert_eq!(
        DownloadError::Server { status: 500 }.message(),
        "Server returned an error: 500".to_string()
    );
    assert_eq!(
        DownloadError::Authorization { status: 403 }.message(),
        "Authorization failed (403). The link may be protected or expired.".to_string()
    );
    assert_eq!(
        DownloadError::SizeMismatch { expected: 10, actual: 7 }.message(),
        "File size mismatch".to_string()
    );
    assert_eq!(
        DownloadError::Connection { detail: "timed out".to_string() }.message(),
        "Failed to connect: timed out".to_string()
    );
    assert_eq!(
        DownloadError::Io { detail: "no space".to_string() }.message(),
        "Disk error: no space".to_string()
    );
    assert_eq!(
        DownloadError::InvalidUrl { malformed: false }.message(),
        "Only HTTP and HTTPS URLs are supported".to_string()
    );
    assert_eq!(
        DownloadError::InvalidUrl { malformed: true }.message(),
        "Invalid URL format".to_string()
    );
    assert_eq!(DownloadError::TaskNotFound.message(), "Task not found".to_string());
    assert_eq!(
        DownloadError::Persistence.message(),
        "Could not load or save the download list".to_string()
    );
}
