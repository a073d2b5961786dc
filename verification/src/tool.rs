//! Facts about the external tool itself: where its binary is looked for
//! and fetched from, and how the outcomes of acquiring and updating it are
//! classified. The lookups, the HTTP fetch and the process runs happen on
//! the caller's side.

use vstd::prelude::*;

verus! {

/// Name of the external media-fetching tool's binary.
pub fn ytdlp_binary_name() -> (r: &'static str)
    ensures
        r@ == "yt-dlp"@,
{
    "yt-dlp"
}

/// Release URL from which the external tool's binary is fetched.
pub fn ytdlp_download_url() -> (r: &'static str)
    ensures
        r@ == "https://github.com/yt-dlp/yt-dlp/releases/latest/download/yt-dlp_linux"@,
{
    "https://github.com/yt-dlp/yt-dlp/releases/latest/download/yt-dlp_linux"
}

/// An HTTP status code that counts as a successful fetch.
pub fn is_success_status(code: i32) -> (r: bool)
    ensures
        r == (200 <= code < 300),
{
    200 <= code && code < 300
}

/// Where the tool's binary is taken from.
#[derive(Debug, Clone, Copy, PartialEq, Eq, Structural)]
pub enum ToolSource {
    /// The path cached from an earlier resolution, still present.
    Cached,
    /// The binary bundled in the application's resource directory.
    Bundled,
    /// A binary already present in the local data directory.
    LocalData,
    /// Nothing found: the binary must be downloaded into local data first.
    NeedsDownload,
}

/// Resolution order for the tool's binary: a still-valid cached path wins,
/// then the bundled copy, then a copy in local data; otherwise it has to
/// be downloaded.
pub fn resolve_tool_source(cached: bool, bundled: bool, local_data: bool) -> (r: ToolSource)
    ensures
        cached ==> r == ToolSource::Cached,
        !cached && bundled ==> r == ToolSource::Bundled,
        !cached && !bundled && local_data ==> r == ToolSource::LocalData,
        !cached && !bundled && !local_data ==> r == ToolSource::NeedsDownload,
{
    if cached {
        ToolSource::Cached
    } else if bundled {
        ToolSource::Bundled
    } else if local_data {
        ToolSource::LocalData
    } else {
        ToolSource::NeedsDownload
    }
}

/// The default download folder under the user's home directory, when one
/// is known; without one the caller falls back to its own data directory.
pub fn default_download_folder(home: Option<&str>) -> (r: Option<String>)
    ensures
        home matches Some(h) ==> (r matches Some(p) && p@ == h@ + "/Downloads"@),
        home matches None ==> r matches None,
{
    match home {
        Some(h) => Some(String::from_str(h).concat("/Downloads")),
        None => None,
    }
}

/// Classifies a self-update run of the tool from its exit success and its
/// captured output: success reports the tool's standard output, failure
/// its standard error.
pub fn update_report(success: bool, stdout: &str, stderr: &str) -> (r: Result<String, String>)
    ensures
        success ==> (r matches Ok(m) && m@ == "yt-dlp updated successfully.\n"@ + stdout@),
        !success ==> (r matches Err(m) && m@ == "Failed to update yt-dlp: "@ + stderr@),
{
    if success {
        Ok(String::from_str("yt-dlp updated successfully.\n").concat(stdout))
    } else {
        Err(String::from_str("Failed to update yt-dlp: ").concat(stderr))
    }
}

} // verus!
