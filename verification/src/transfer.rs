//! The decisions of one transfer attempt: what the request looks like, what
//! the response's status and headers mean for the task, how progress samples
//! are computed, and the post-transfer size check.
//!
//! The network and disk work itself happens outside the crate; these
//! functions consume the plain values it produces (status codes, header
//! values, byte counts) and are verified for every value of them.

use vstd::prelude::*;
use vstd::string::StringExecFns;
use crate::errors::DownloadError;
use crate::task::DownloadStatus;
use crate::task::DownloadTask;
use crate::task::compute_progress_bp;
use crate::task::progress_basis_points;
use crate::text::dec_digits;
use crate::text::str_eq;
use crate::text::u64_to_dec;

verus! {

/// An HTTP status that counts as success.
pub open spec fn is_success_status(status: u16) -> bool {
    200 <= status < 300
}

/// Whether a response's `accept-ranges` header advertises byte ranges.
pub open spec fn ranges_advertised(accept_ranges: Option<String>) -> bool {
    accept_ranges matches Some(v) && v@ == "bytes"@
}

/// The content length a response reports, 0 when the header is absent.
pub open spec fn content_length_or_zero(content_length: Option<u64>) -> u64 {
    match content_length {
        Some(n) => n,
        None => 0,
    }
}

/// Whether the attempt runs with partial-content semantics: it asked to
/// resume and the server answered 206.
pub open spec fn is_partial_content(resume_from: u64, status: u16) -> bool {
    resume_from > 0 && status == 206
}

/// The task's total size after this response: what the server reports, plus
/// the resume offset when the server honoured the range request.
pub open spec fn setup_total(resume_from: u64, status: u16, content_length: Option<u64>) -> int {
    if is_partial_content(resume_from, status) {
        content_length_or_zero(content_length) + resume_from
    } else {
        content_length_or_zero(content_length) as int
    }
}

/// The bytes already on disk that this attempt keeps: the resume offset under
/// partial-content semantics, none otherwise.
///
/// This is a deliberate departure from opening the file append-only on every
/// resumed attempt: a server that answers a range request with 200 sends the
/// whole body from byte zero, so appending it after the kept bytes would
/// corrupt the file and the size check would then condemn the download. The
/// attempt restarts the file instead, and the kept-bytes rule below is the
/// contract for both cases.
pub open spec fn setup_offset(resume_from: u64, status: u16) -> u64 {
    if is_partial_content(resume_from, status) {
        resume_from
    } else {
        0
    }
}

/// What one successful response header means for the task.
#[derive(Debug, PartialEq)]
pub struct AttemptSetup {
    /// The server advertised byte-range support.
    pub resume_capability: bool,
    /// Total size in bytes; 0 while unknown.
    pub total_size: u64,
    /// Bytes already on disk that this attempt keeps and appends after;
    /// 0 means the destination file is created afresh.
    pub write_offset: u64,
}

impl AttemptSetup {
    /// The kept bytes never exceed a known total.
    pub open spec fn wf(self) -> bool {
        self.total_size > 0 ==> self.write_offset <= self.total_size
    }
}

/// Reads a response's status line and headers for one attempt.
///
/// 401 and 403 are authorization failures; any other non-2xx status is a
/// server error. On success, the returned setup holds the resume capability,
/// the total size and the write offset exactly as `setup_total` and
/// `setup_offset` say: a resumed attempt appends after its kept bytes only
/// under partial-content semantics, and starts the file afresh when the
/// server ignored the range request (see `setup_offset` for why).
pub fn attempt_setup(
    resume_from: u64,
    status: u16,
    accept_ranges: &Option<String>,
    content_length: &Option<u64>,
) -> (r: Result<AttemptSetup, DownloadError>)
    requires
        setup_total(resume_from, status, *content_length) <= u64::MAX,
    ensures
        r is Ok <==> is_success_status(status),
        (status == 401 || status == 403) ==> r == Err::<AttemptSetup, _>(
            DownloadError::Authorization { status },
        ),
        (!is_success_status(status) && status != 401 && status != 403) ==> r == Err::<
            AttemptSetup,
            _,
        >(DownloadError::Server { status }),
        r matches Ok(setup) ==> ({
            &&& setup.resume_capability == ranges_advertised(*accept_ranges)
            &&& setup.total_size == setup_total(resume_from, status, *content_length)
            &&& setup.write_offset == setup_offset(resume_from, status)
            &&& setup.wf()
        }),
{
    if status == 401 || status == 403 {
        return Err(DownloadError::Authorization { status });
    }
    if !(200 <= status && status < 300) {
        return Err(DownloadError::Server { status });
    }
    let resume_capability = match accept_ranges {
        Some(v) => str_eq(v.as_str(), "bytes"),
        None => false,
    };
    let reported = match content_length {
        Some(n) => *n,
        None => 0,
    };
    let (total_size, write_offset) = if resume_from > 0 && status == 206 {
        (reported + resume_from, resume_from)
    } else {
        (reported, 0)
    };
    Ok(AttemptSetup { resume_capability, total_size, write_offset })
}

/// The value of the `Range` request header for a resume offset.
pub open spec fn range_header_spec(offset: u64) -> Seq<char> {
    "bytes="@ + dec_digits(offset as nat) + "-"@
}

/// Renders the `Range` header value `bytes=<offset>-`.
pub fn range_header_value(offset: u64) -> (s: String)
    ensures
        s@ == range_header_spec(offset),
{
    let s = String::from_str("bytes=");
    let s = s.concat(u64_to_dec(offset).as_str());
    s.concat("-")
}

/// The request one attempt issues for a task.
pub struct AttemptRequest {
    pub url: String,
    /// The byte the transfer resumes from: the bytes already confirmed on
    /// disk for this download.
    pub resume_from: u64,
    /// The `Range` header to send, present exactly when resuming.
    pub range_header: Option<String>,
}

/// Builds the request for the next attempt of `t`: resuming a task with
/// `downloaded_size = N > 0` asks for bytes from `N` on; a fresh task asks
/// for the whole resource.
pub fn attempt_request(t: &DownloadTask) -> (r: AttemptRequest)
    ensures
        r.url == t.url,
        r.resume_from == t.downloaded_size,
        t.downloaded_size > 0 ==> (r.range_header matches Some(h) && h@ == range_header_spec(
            t.downloaded_size,
        )),
        t.downloaded_size == 0 ==> r.range_header is None,
{
    let range_header = if t.downloaded_size > 0 {
        Some(range_header_value(t.downloaded_size))
    } else {
        None
    };
    AttemptRequest { url: t.url.clone(), resume_from: t.downloaded_size, range_header }
}

/// The sampled transfer rate in bytes per second: the bytes written since the
/// last sample over the elapsed time, capped at the type's maximum; 0 when no
/// time has passed.
pub open spec fn speed_spec(bytes_delta: u64, elapsed_ms: u64) -> int {
    if elapsed_ms == 0 {
        0
    } else if bytes_delta * 1000 / elapsed_ms as int > u64::MAX {
        u64::MAX as int
    } else {
        bytes_delta * 1000 / elapsed_ms as int
    }
}

/// One published progress snapshot for a task.
#[derive(Debug, PartialEq)]
pub struct ProgressSample {
    /// Bytes confirmed written so far.
    pub downloaded: u64,
    /// Bytes per second since the last sample.
    pub speed: u64,
    /// Estimated seconds remaining, when the rate and total allow one.
    pub time_remaining: Option<u64>,
    /// Progress in hundredths of a percent.
    pub progress_bp: u64,
}

/// Computes one progress sample: the rate from the sampling window, the
/// remaining-time estimate `(total - downloaded) / rate` when both the rate
/// and the total are known, and the progress share of the total.
pub fn compute_progress_sample(
    downloaded: u64,
    total: u64,
    bytes_delta: u64,
    elapsed_ms: u64,
) -> (sample: ProgressSample)
    requires
        total > 0 ==> downloaded <= total,
    ensures
        sample.downloaded == downloaded,
        sample.speed == speed_spec(bytes_delta, elapsed_ms),
        sample.time_remaining == (if sample.speed > 0 && total > 0 {
            Some((((total - downloaded) as u64) / sample.speed) as u64)
        } else {
            None::<u64>
        }),
        sample.progress_bp == progress_basis_points(downloaded, total),
        sample.progress_bp <= 10000,
{
    let speed: u64 = if elapsed_ms == 0 {
        0
    } else {
        let q: u128 = (bytes_delta as u128) * 1000 / (elapsed_ms as u128);
        if q > u64::MAX as u128 {
            u64::MAX
        } else {
            q as u64
        }
    };
    let time_remaining = if speed > 0 && total > 0 {
        Some((total - downloaded) / speed)
    } else {
        None
    };
    let progress_bp = compute_progress_bp(downloaded, total);
    ProgressSample { downloaded, speed, time_remaining, progress_bp }
}

/// The post-transfer size check: with a known total, the bytes on disk must
/// match it exactly; an unknown total accepts any length.
pub fn verify_size(expected_total: u64, actual: u64) -> (r: Result<(), DownloadError>)
    ensures
        r is Ok <==> (expected_total == 0 || actual == expected_total),
        !(expected_total == 0 || actual == expected_total) ==> r == Err::<(), _>(
            DownloadError::SizeMismatch { expected: expected_total, actual },
        ),
{
    if expected_total > 0 && actual != expected_total {
        Err(DownloadError::SizeMismatch { expected: expected_total, actual })
    } else {
        Ok(())
    }
}

impl DownloadTask {
    /// Record what the attempt's response headers said: the total size, the
    /// resume capability, and the bytes this attempt keeps on disk.
    pub fn apply_attempt_setup(&mut self, setup: &AttemptSetup)
        requires
            old(self).wf(),
            setup.wf(),
            old(self).status is Downloading,
        ensures
            final(self).wf(),
            final(self).total_size == setup.total_size,
            final(self).resume_capability == setup.resume_capability,
            final(self).downloaded_size == setup.write_offset,
            final(self).progress_bp == progress_basis_points(
                setup.write_offset,
                setup.total_size,
            ),
            *final(self) == (DownloadTask {
                total_size: final(self).total_size,
                resume_capability: final(self).resume_capability,
                downloaded_size: final(self).downloaded_size,
                progress_bp: final(self).progress_bp,
                ..*old(self)
            }),
    {
        self.total_size = setup.total_size;
        self.resume_capability = setup.resume_capability;
        self.downloaded_size = setup.write_offset;
        self.progress_bp = compute_progress_bp(self.downloaded_size, self.total_size);
    }

    /// Publish one progress sample into the record. Samples within one
    /// attempt never run backwards, and never beyond a known total.
    pub fn record_progress(&mut self, downloaded: u64, bytes_delta: u64, elapsed_ms: u64)
        requires
            old(self).wf(),
            old(self).status is Downloading,
            old(self).total_size > 0 ==> downloaded <= old(self).total_size,
            downloaded >= old(self).downloaded_size,
        ensures
            final(self).wf(),
            final(self).downloaded_size == downloaded,
            final(self).speed == speed_spec(bytes_delta, elapsed_ms),
            final(self).progress_bp == progress_basis_points(downloaded, old(self).total_size),
            final(self).downloaded_size >= old(self).downloaded_size,
            *final(self) == (DownloadTask {
                downloaded_size: final(self).downloaded_size,
                speed: final(self).speed,
                time_remaining: final(self).time_remaining,
                progress_bp: final(self).progress_bp,
                ..*old(self)
            }),
    {
        let sample = compute_progress_sample(
            downloaded,
            self.total_size,
            bytes_delta,
            elapsed_ms,
        );
        self.downloaded_size = sample.downloaded;
        self.speed = sample.speed;
        self.time_remaining = sample.time_remaining;
        self.progress_bp = sample.progress_bp;
    }
}

} // verus!
