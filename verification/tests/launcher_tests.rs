use ytdl_supervisor::launcher::{build_download_args, build_metadata_args, quality_format_string};
use ytdl_supervisor::events::{kind_tag, media_kind_of, status_tag, MediaKind, Status};
use ytdl_supervisor::supervisor::prepare_download;
use ytdl_supervisor::url::{is_playlist_url, is_valid_youtube_url, validate_url};

const UA: &str = "Mozilla/5.0 (Windows NT 10.0; Win64; x64) AppleWebKit/537.36 (KHTML, like Gecko) Chrome/131.0.0.0 Safari/537.36";

#[test]
fn audio_argument_vector_is_fixed() {
    let args = build_download_args(
        MediaKind::Audio,
        "1080p",
        "/home/u/Downloads",
        "https://youtu.be/abc",
    );
    let expect = vec![
        "--user-agent",
        UA,
        "--referer",
        "https://www.youtube.com/",
        "--extractor-retries",
        "3",
        "--no-cache-dir",
        "-f",
        "bestaudio/best",
        "-o",
        "/home/u/Downloads/%(title)s.%(ext)s",
        "--newline",
        "--no-playlist",
        "https://youtu.be/abc",
    ];
    assert_eq!(args, expect);
}

#[test]
fn video_argument_vector_adds_socket_timeout_and_quality() {
    let args = build_download_args(
        MediaKind::Video,
        "1080p",
        "/home/u/Downloads",
        "https://youtu.be/abc",
    );
    let expect = vec![
        "--user-agent",
        UA,
        "--referer",
        "https://www.youtube.com/",
        "--extractor-retries",
        "3",
        "--no-cache-dir",
        "--socket-timeout",
        "30",
        "-f",
        "best[height<=?1080][ext=mp4]/best[ext=mp4]/best",
        "-o",
        "/home/u/Downloads/%(title)s.%(ext)s",
        "--newline",
        "--no-playlist",
        "https://youtu.be/abc",
    ];
    assert_eq!(args, expect);
}

#[test]
fn quality_tiers_map_to_height_ceilings() {
    assert_eq!(quality_format_string("4k"), "best[height<=?2160][ext=mp4]/best[ext=mp4]/best");
    assert_eq!(quality_format_string("1080p"), "best[height<=?1080][ext=mp4]/best[ext=mp4]/best");
    assert_eq!(quality_format_string("720p"), "best[height<=?720][ext=mp4]/best[ext=mp4]/best");
    assert_eq!(quality_format_string("480p"), "best[height<=?480][ext=mp4]/best[ext=mp4]/best");
}

#[test]
fn unknown_quality_falls_back_to_container_best() {
    assert_eq!(quality_format_string("8k"), "best[ext=mp4]/best");
    assert_eq!(quality_format_string(""), "best[ext=mp4]/best");
}

#[test]
fn accepts_allowed_watch_urls() {
    assert!(is_valid_youtube_url("https://www.youtube.com/watch?v=dQw4w9WgXcQ"));
    assert!(is_valid_youtube_url("http://youtube.com/watch?v=a"));
    assert!(is_valid_youtube_url("https://youtu.be/abc-_123"));
    assert!(is_valid_youtube_url("http://www.youtu.be/Zz9"));
    assert!(is_valid_youtube_url("https://www.youtube.com/watch?v=a&list=PL123"));
}

#[test]
fn rejects_other_urls() {
    // no scheme
    assert!(!is_valid_youtube_url("youtube.com/watch?v=abc"));
    // wrong scheme
    assert!(!is_valid_youtube_url("ftp://youtube.com/watch?v=abc"));
    // foreign host
    assert!(!is_valid_youtube_url("https://example.com/watch?v=abc"));
    // allowed host buried behind a foreign one
    assert!(!is_valid_youtube_url("https://evil.test/youtube.com/watch?v=abc"));
    // empty identifier
    assert!(!is_valid_youtube_url("https://www.youtube.com/watch?v="));
    assert!(!is_valid_youtube_url("https://youtu.be/"));
    // identifier must start with a word character
    assert!(!is_valid_youtube_url("https://youtu.be/?x"));
}

#[test]
fn empty_url_is_invalid() {
    assert!(!validate_url(""));
    assert!(validate_url("https://youtu.be/abc"));
}

#[test]
fn prepare_download_rejects_bad_url_before_any_work() {
    let r = prepare_download("https://example.com/x", MediaKind::Video, "720p", "/tmp");
    assert_eq!(
        r.unwrap_err(),
        "Invalid URL. Only YouTube URLs (youtube.com or youtu.be) are allowed."
    );
}

#[test]
fn metadata_argument_vector_is_fixed() {
    let flat = build_metadata_args(true, "https://youtu.be/a?list=PL1");
    let expect = vec![
        "--dump-json",
        "--flat-playlist",
        "--user-agent",
        UA,
        "--referer",
        "https://www.youtube.com/",
        "--extractor-retries",
        "3",
        "--no-cache-dir",
        "https://youtu.be/a?list=PL1",
    ];
    assert_eq!(flat, expect);
    let single = build_metadata_args(false, "https://youtu.be/a");
    assert_eq!(single[0], "--dump-json");
    assert_ne!(single[1], "--flat-playlist");
    assert_eq!(single.last().map(|s| s.as_str()), Some("https://youtu.be/a"));
}

#[test]
fn playlist_urls_are_recognized() {
    assert!(is_playlist_url("https://www.youtube.com/playlist?list=PL1"));
    assert!(is_playlist_url("https://www.youtube.com/watch?v=a&list=PL1"));
    assert!(!is_playlist_url("https://youtu.be/abc"));
}

#[test]
fn kind_and_status_vocabulary() {
    assert_eq!(media_kind_of("audio"), MediaKind::Audio);
    assert_eq!(media_kind_of("video"), MediaKind::Video);
    assert_eq!(media_kind_of("anything"), MediaKind::Video);
    assert_eq!(kind_tag(MediaKind::Audio), "audio");
    assert_eq!(kind_tag(MediaKind::Video), "video");
    assert_eq!(status_tag(Status::Starting), "starting");
    assert_eq!(status_tag(Status::Downloading), "downloading");
    assert_eq!(status_tag(Status::Completed), "completed");
    assert_eq!(status_tag(Status::Error), "error");
    assert_eq!(status_tag(Status::Cancelled), "cancelled");
}

#[test]
fn prepare_download_builds_args_for_valid_url() {
    let r = prepare_download("https://youtu.be/abc", MediaKind::Audio, "720p", "/tmp");
    let args = r.unwrap();
    assert_eq!(args.first().map(|s| s.as_str()), Some("--user-agent"));
    assert_eq!(args.last().map(|s| s.as_str()), Some("https://youtu.be/abc"));
    assert!(args.iter().any(|a| a == "bestaudio/best"));
}
