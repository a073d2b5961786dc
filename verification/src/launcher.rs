//! Deterministic construction of the external tool's argument vector from
//! a validated URL, the requested media kind, the quality tier and the
//! output directory. Spawning the process itself is the caller's side.

use vstd::prelude::*;
use crate::events::MediaKind;
use crate::strutil::str_eq;

verus! {

/// The user agent every invocation presents.
pub open spec fn user_agent() -> Seq<char> {
    "Mozilla/5.0 (Windows NT 10.0; Win64; x64) AppleWebKit/537.36 (KHTML, like Gecko) Chrome/131.0.0.0 Safari/537.36"@
}

/// Stream selector for a quality tier: the best pre-merged (single-file)
/// stream at or below the tier's height ceiling in the target container,
/// falling back to the best in the target container, then the best
/// available. Tiers not recognized fall back to the best in the target
/// container.
pub open spec fn quality_format(q: Seq<char>) -> Seq<char> {
    if q == "4k"@ {
        "best[height<=?2160][ext=mp4]/best[ext=mp4]/best"@
    } else if q == "1080p"@ {
        "best[height<=?1080][ext=mp4]/best[ext=mp4]/best"@
    } else if q == "720p"@ {
        "best[height<=?720][ext=mp4]/best[ext=mp4]/best"@
    } else if q == "480p"@ {
        "best[height<=?480][ext=mp4]/best[ext=mp4]/best"@
    } else {
        "best[ext=mp4]/best"@
    }
}

/// Stream selector for a job: audio takes the best audio-only stream with
/// no container conversion; video goes by the quality tier.
pub open spec fn format_selector(kind: MediaKind, q: Seq<char>) -> Seq<char> {
    match kind {
        MediaKind::Audio => "bestaudio/best"@,
        MediaKind::Video => quality_format(q),
    }
}

/// Output naming template: the external tool supplies title and extension
/// under the job's output directory.
pub open spec fn output_template(dir: Seq<char>) -> Seq<char> {
    dir + "/%(title)s.%(ext)s"@
}

/// Flags shared by every invocation: user agent, referrer, extractor retry
/// count, disabled cache, and (on the video path only) a socket timeout.
pub open spec fn shared_flags(kind: MediaKind) -> Seq<Seq<char>> {
    let common = seq![
        "--user-agent"@,
        user_agent(),
        "--referer"@,
        "https://www.youtube.com/"@,
        "--extractor-retries"@,
        "3"@,
        "--no-cache-dir"@,
    ];
    match kind {
        MediaKind::Audio => common,
        MediaKind::Video => common + seq!["--socket-timeout"@, "30"@],
    }
}

/// The full argument vector of one single-video invocation: shared flags,
/// stream selector, output template, line-buffered progress, playlist
/// expansion disabled, and the URL last.
pub open spec fn download_args(
    kind: MediaKind,
    q: Seq<char>,
    dir: Seq<char>,
    url: Seq<char>,
) -> Seq<Seq<char>> {
    shared_flags(kind) + seq![
        "-f"@,
        format_selector(kind, q),
        "-o"@,
        output_template(dir),
        "--newline"@,
        "--no-playlist"@,
        url,
    ]
}

/// Builds the argument vector for one single-video invocation.
pub fn build_download_args(kind: MediaKind, quality: &str, output_dir: &str, url: &str) -> (r:
    Vec<String>)
    ensures
        r.deep_view() == download_args(kind, quality@, output_dir@, url@),
{
    let mut r: Vec<String> = Vec::new();
    r.push(String::from_str("--user-agent"));
    r.push(String::from_str(
        "Mozilla/5.0 (Windows NT 10.0; Win64; x64) AppleWebKit/537.36 (KHTML, like Gecko) Chrome/131.0.0.0 Safari/537.36",
    ));
    r.push(String::from_str("--referer"));
    r.push(String::from_str("https://www.youtube.com/"));
    r.push(String::from_str("--extractor-retries"));
    r.push(String::from_str("3"));
    r.push(String::from_str("--no-cache-dir"));
    match kind {
        MediaKind::Audio => {},
        MediaKind::Video => {
            r.push(String::from_str("--socket-timeout"));
            r.push(String::from_str("30"));
        },
    }
    r.push(String::from_str("-f"));
    match kind {
        MediaKind::Audio => {
            r.push(String::from_str("bestaudio/best"));
        },
        MediaKind::Video => {
            r.push(quality_format_string(quality));
        },
    }
    r.push(String::from_str("-o"));
    r.push(String::from_str(output_dir).concat("/%(title)s.%(ext)s"));
    r.push(String::from_str("--newline"));
    r.push(String::from_str("--no-playlist"));
    r.push(String::from_str(url));
    proof {
        assert(r.deep_view() =~~= download_args(kind, quality@, output_dir@, url@));
    }
    r
}

/// The argument vector of one metadata fetch: machine-readable records,
/// flat enumeration for playlists, the shared anti-bot flags, the URL
/// last.
pub open spec fn metadata_args(flat: bool, url: Seq<char>) -> Seq<Seq<char>> {
    (if flat {
        seq!["--dump-json"@, "--flat-playlist"@]
    } else {
        seq!["--dump-json"@]
    }) + seq![
        "--user-agent"@,
        user_agent(),
        "--referer"@,
        "https://www.youtube.com/"@,
        "--extractor-retries"@,
        "3"@,
        "--no-cache-dir"@,
        url,
    ]
}

/// Builds the argument vector of one metadata fetch.
pub fn build_metadata_args(flat: bool, url: &str) -> (r: Vec<String>)
    ensures
        r.deep_view() == metadata_args(flat, url@),
{
    let mut r: Vec<String> = Vec::new();
    r.push(String::from_str("--dump-json"));
    if flat {
        r.push(String::from_str("--flat-playlist"));
    }
    r.push(String::from_str("--user-agent"));
    r.push(String::from_str(
        "Mozilla/5.0 (Windows NT 10.0; Win64; x64) AppleWebKit/537.36 (KHTML, like Gecko) Chrome/131.0.0.0 Safari/537.36",
    ));
    r.push(String::from_str("--referer"));
    r.push(String::from_str("https://www.youtube.com/"));
    r.push(String::from_str("--extractor-retries"));
    r.push(String::from_str("3"));
    r.push(String::from_str("--no-cache-dir"));
    r.push(String::from_str(url));
    proof {
        assert(r.deep_view() =~~= metadata_args(flat, url@));
    }
    r
}

/// The stream selector of a video job's quality tier.
pub fn quality_format_string(quality: &str) -> (r: String)
    ensures
        r@ == quality_format(quality@),
{
    if str_eq(quality, "4k") {
        String::from_str("best[height<=?2160][ext=mp4]/best[ext=mp4]/best")
    } else if str_eq(quality, "1080p") {
        String::from_str("best[height<=?1080][ext=mp4]/best[ext=mp4]/best")
    } else if str_eq(quality, "720p") {
        String::from_str("best[height<=?720][ext=mp4]/best[ext=mp4]/best")
    } else if str_eq(quality, "480p") {
        String::from_str("best[height<=?480][ext=mp4]/best[ext=mp4]/best")
    } else {
        String::from_str("best[ext=mp4]/best")
    }
}

} // verus!
