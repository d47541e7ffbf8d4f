//! The metadata resolver's decisions: what a preliminary response means —
//! the resolved name, size and kind of the resource — once the surrounding
//! application has fetched its status line and headers.

use vstd::prelude::*;
use crate::errors::DownloadError;
use crate::naming::derive_file_name;
use crate::naming::derived_name_spec;
use crate::naming::file_type_spec;
use crate::naming::get_file_type;
use crate::naming::opt_view;
use crate::transfer::is_success_status;

verus! {

/// What resolving a URL yields: the final URL after redirects, the derived
/// file name and its classification, and the advertised total size.
#[derive(Debug, PartialEq)]
pub struct DownloadInfo {
    pub final_url: String,
    pub file_name: String,
    /// The advertised content length, when the server reports one.
    pub total_size: Option<u64>,
    pub file_type: String,
}

/// Reads a preliminary response for a URL: a non-success status is a server
/// error; otherwise the file name follows the derivation order (header, URL
/// segment, generated name) and the classification follows the name.
pub fn resolve_download_info(
    status: u16,
    final_url: String,
    content_disposition: &Option<String>,
    content_type: &Option<String>,
    content_length: Option<u64>,
    now_ts: u64,
) -> (r: Result<DownloadInfo, DownloadError>)
    ensures
        r is Ok <==> is_success_status(status),
        !is_success_status(status) ==> r == Err::<DownloadInfo, _>(
            DownloadError::Server { status },
        ),
        r matches Ok(info) ==> ({
            &&& info.final_url == final_url
            &&& info.file_name@ == derived_name_spec(
                opt_view(*content_disposition),
                final_url@,
                opt_view(*content_type),
                now_ts,
            )
            &&& info.file_type@ == file_type_spec(info.file_name@)
            &&& info.total_size == content_length
        }),
{
    if !(200 <= status && status < 300) {
        return Err(DownloadError::Server { status });
    }
    let file_name = derive_file_name(
        content_disposition,
        final_url.as_str(),
        content_type,
        now_ts,
    );
    let file_type = get_file_type(file_name.as_str());
    Ok(DownloadInfo { final_url, file_name, total_size: content_length, file_type })
}

} // verus!
