//! Process-wide configuration that the engine and the orchestrator read.

use vstd::prelude::*;
use vstd::string::StringExecFns;

verus! {

/// The settings record. The core only reads it; the surrounding application
/// decides where its values come from.
#[derive(Debug, PartialEq)]
pub struct AppSettings {
    /// Default directory that new tasks save into.
    pub download_folder: String,
    /// Ceiling on simultaneously running downloads.
    pub max_concurrent_downloads: u32,
    /// Advisory per-task connection count; never used to split a transfer.
    pub max_connections_per_download: u8,
    /// Start a task right after it is added.
    pub auto_start: bool,
    /// Show a notification when a download completes.
    pub show_notifications: bool,
    /// Advisory threshold for splitting; kept for compatibility, unused.
    pub min_split_size: u64,
    /// Retry failed attempts automatically.
    pub auto_resume_downloads: bool,
    /// Ceiling on retry attempts per task.
    pub max_resume_attempts: u8,
    /// Backoff delay before a retry, in seconds.
    pub resume_delay_seconds: u64,
    /// An attempt shorter than this (other than the first) is taken as a
    /// persistent condition and not retried.
    pub min_fail_duration_seconds: u64,
}

/// What every field defaults to, around the given download folder.
pub open spec fn is_default_settings(s: AppSettings, folder: Seq<char>) -> bool {
    &&& s.download_folder@ == folder
    &&& s.max_concurrent_downloads == 4
    &&& s.max_connections_per_download == 8
    &&& s.auto_start
    &&& s.show_notifications
    &&& s.min_split_size == 10 * 1024 * 1024
    &&& s.auto_resume_downloads
    &&& s.max_resume_attempts == 5
    &&& s.resume_delay_seconds == 10
    &&& s.min_fail_duration_seconds == 20
}

impl AppSettings {
    /// The defaults around a caller-chosen download folder.
    pub fn default_for_folder(folder: String) -> (s: AppSettings)
        ensures
            is_default_settings(s, folder@),
    {
        AppSettings {
            download_folder: folder,
            max_concurrent_downloads: 4,
            max_connections_per_download: 8,
            auto_start: true,
            show_notifications: true,
            min_split_size: 10 * 1024 * 1024,
            auto_resume_downloads: true,
            max_resume_attempts: 5,
            resume_delay_seconds: 10,
            min_fail_duration_seconds: 20,
        }
    }

    /// The defaults, with the platform's download directory when the
    /// environment names one and the conventional fallback otherwise. Only
    /// the folder depends on the environment.
    pub fn platform_default() -> (s: AppSettings)
        ensures
            is_default_settings(s, s.download_folder@),
    {
        let folder = match crate::platform::platform_download_dir() {
            Some(f) => f,
            None => String::from_str("~/Downloads"),
        };
        AppSettings::default_for_folder(folder)
    }

    /// Duplicates the record.
    pub fn duplicate(&self) -> (s: AppSettings)
        ensures
            s == *self,
    {
        AppSettings {
            download_folder: self.download_folder.clone(),
            max_concurrent_downloads: self.max_concurrent_downloads,
            max_connections_per_download: self.max_connections_per_download,
            auto_start: self.auto_start,
            show_notifications: self.show_notifications,
            min_split_size: self.min_split_size,
            auto_resume_downloads: self.auto_resume_downloads,
            max_resume_attempts: self.max_resume_attempts,
            resume_delay_seconds: self.resume_delay_seconds,
            min_fail_duration_seconds: self.min_fail_duration_seconds,
        }
    }
}

impl Default for AppSettings {
    /// The defaults around the conventional fallback folder.
    fn default() -> (s: AppSettings)
        ensures
            is_default_settings(s, "~/Downloads"@),
    {
        AppSettings::default_for_folder(String::from_str("~/Downloads"))
    }
}

} // verus!
