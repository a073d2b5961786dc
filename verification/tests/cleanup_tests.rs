use ytdl_supervisor::cleanup::{
    cleanup_targets, deletion_retry_policy, is_partial_artifact, next_retry, RetryPolicy,
};
use ytdl_supervisor::fanout::collect_fanout;
use ytdl_supervisor::meta::{
    make_playlist_info, make_requested_video_info, make_video_info, single_video_playlist,
};
use ytdl_supervisor::paths::{output_path_allowed, path_within};
use ytdl_supervisor::tool::{
    default_download_folder, is_success_status, resolve_tool_source, update_report,
    ytdlp_binary_name, ytdlp_download_url, ToolSource,
};
use ytdl_supervisor::strutil::u64_to_string;

fn strings(v: &[&str]) -> Vec<String> {
    v.iter().map(|s| s.to_string()).collect()
}

#[test]
fn cleanup_removes_only_this_jobs_temporaries() {
    let names = strings(&[
        "My Video.mp4.part",
        "My Video.mp4.ytdl",
        "Other Video.mp4.part",
    ]);
    let targets = cleanup_targets(&names, "My Video");
    assert_eq!(targets, strings(&["My Video.mp4.part", "My Video.mp4.ytdl"]));
}

#[test]
fn cleanup_leaves_finished_files_alone() {
    let names = strings(&[
        "My Video.mp4",
        "My Video.mp4.part-Frag35.part",
        "My Video.mp4.temp",
        "My Video.description",
    ]);
    let targets = cleanup_targets(&names, "My Video");
    assert_eq!(
        targets,
        strings(&["My Video.mp4.part-Frag35.part", "My Video.mp4.temp"])
    );
}

#[test]
fn artifact_test_needs_both_prefix_and_suffix() {
    assert!(is_partial_artifact("My Video.mp4.part", "My Video"));
    assert!(is_partial_artifact("My Video.mp4.ytdl-frag", "My Video"));
    assert!(!is_partial_artifact("My Video.mp4", "My Video"));
    assert!(!is_partial_artifact("Other.mp4.part", "My Video"));
    // the prefix is the exact title, not a fuzzy match
    assert!(!is_partial_artifact("my video.mp4.part", "My Video"));
}

#[test]
fn retry_policy_is_five_attempts_with_fixed_pause() {
    let p = deletion_retry_policy();
    assert_eq!(p, RetryPolicy { max_attempts: 5, delay_ms: 200 });
    assert_eq!(next_retry(&p, 0), Some(200));
    assert_eq!(next_retry(&p, 4), Some(200));
    assert_eq!(next_retry(&p, 5), None);
    assert_eq!(next_retry(&p, 6), None);
}

#[test]
fn fanout_mixes_ids_and_item_errors() {
    let urls = strings(&["u1", "u2", "u3"]);
    let outcomes = vec![
        Ok("id1".to_string()),
        Err("spawn failed".to_string()),
        Ok("id3".to_string()),
    ];
    let (ids, errors) = collect_fanout(&urls, outcomes);
    assert_eq!(ids, strings(&["id1", "id3"]));
    assert_eq!(errors.len(), 1);
    assert_eq!(errors[0].url, "u2");
    assert_eq!(errors[0].error, "spawn failed");
}

#[test]
fn fanout_all_ok_and_all_failed() {
    let urls = strings(&["u1", "u2"]);
    let (ids, errors) =
        collect_fanout(&urls, vec![Ok("a".to_string()), Ok("b".to_string())]);
    assert_eq!(ids, strings(&["a", "b"]));
    assert!(errors.is_empty());

    let (ids2, errors2) = collect_fanout(
        &urls,
        vec![Err("x".to_string()), Err("y".to_string())],
    );
    assert!(ids2.is_empty());
    assert_eq!(errors2.len(), 2);
    assert_eq!(errors2[0].url, "u1");
    assert_eq!(errors2[1].url, "u2");
}

#[test]
fn video_info_fills_placeholders() {
    let v = make_video_info(None, None, None, None);
    assert_eq!(v.id, "unknown");
    assert_eq!(v.title, "Unknown");
    assert_eq!(v.url, "https://www.youtube.com/watch?v=");
    let w = make_video_info(
        Some("abc".to_string()),
        Some("A Song".to_string()),
        Some("3:14".to_string()),
        None,
    );
    assert_eq!(w.id, "abc");
    assert_eq!(w.title, "A Song");
    assert_eq!(w.url, "https://www.youtube.com/watch?v=abc");
    assert_eq!(w.duration.as_deref(), Some("3:14"));
    assert_eq!(w.thumbnail, None);
}

#[test]
fn single_fetch_keeps_the_request_url() {
    let v = make_requested_video_info(
        "https://youtu.be/abc?t=3".to_string(),
        Some("abc".to_string()),
        None,
        None,
        None,
    );
    assert_eq!(v.url, "https://youtu.be/abc?t=3");
    assert_eq!(v.id, "abc");
    assert_eq!(v.title, "Unknown");
}

#[test]
fn playlist_title_names_the_count() {
    let videos = vec![
        make_video_info(Some("a".to_string()), None, None, None),
        make_video_info(Some("b".to_string()), None, None, None),
        make_video_info(Some("c".to_string()), None, None, None),
    ];
    let p = make_playlist_info(videos);
    assert_eq!(p.title, "Playlist with 3 videos");
    assert_eq!(p.video_count, 3);
    assert_eq!(p.videos.len(), 3);

    let empty = make_playlist_info(Vec::new());
    assert_eq!(empty.title, "Empty Playlist");
    assert_eq!(empty.video_count, 0);
}

#[test]
fn single_video_wraps_as_playlist_of_one() {
    let v = make_video_info(Some("a".to_string()), Some("T".to_string()), None, None);
    let p = single_video_playlist(None, v);
    assert_eq!(p.title, "Unknown Video");
    assert_eq!(p.video_count, 1);
    assert_eq!(p.videos.len(), 1);
    assert_eq!(p.videos[0].id, "a");
}

#[test]
fn tool_facts() {
    assert_eq!(ytdlp_binary_name(), "yt-dlp");
    assert_eq!(
        ytdlp_download_url(),
        "https://github.com/yt-dlp/yt-dlp/releases/latest/download/yt-dlp_linux"
    );
    assert!(is_success_status(200));
    assert!(is_success_status(299));
    assert!(!is_success_status(199));
    assert!(!is_success_status(300));
    assert!(!is_success_status(404));
}

#[test]
fn tool_resolution_order() {
    assert_eq!(resolve_tool_source(true, true, true), ToolSource::Cached);
    assert_eq!(resolve_tool_source(false, true, true), ToolSource::Bundled);
    assert_eq!(resolve_tool_source(false, false, true), ToolSource::LocalData);
    assert_eq!(resolve_tool_source(false, false, false), ToolSource::NeedsDownload);
}

#[test]
fn download_folder_hangs_off_home() {
    assert_eq!(
        default_download_folder(Some("/home/u")),
        Some("/home/u/Downloads".to_string())
    );
    assert_eq!(default_download_folder(None), None);
}

#[test]
fn update_report_messages() {
    assert_eq!(
        update_report(true, "now at latest\n", "ignored"),
        Ok("yt-dlp updated successfully.\nnow at latest\n".to_string())
    );
    assert_eq!(
        update_report(false, "ignored", "no network"),
        Err("Failed to update yt-dlp: no network".to_string())
    );
}

#[test]
fn path_confinement_is_component_wise() {
    let downloads = strings(&["home", "u", "Downloads"]);
    let app_data = strings(&["home", "u", ".local", "share", "app"]);
    let inside = strings(&["home", "u", "Downloads", "clips"]);
    let outside = strings(&["home", "u", "Documents"]);
    let sneaky = strings(&["home", "u", "DownloadsEvil"]);
    assert!(path_within(&inside, &downloads));
    assert!(path_within(&downloads, &downloads));
    assert!(!path_within(&outside, &downloads));
    assert!(!path_within(&sneaky, &downloads));
    assert!(output_path_allowed(&inside, &downloads, &app_data));
    assert!(!output_path_allowed(&outside, &downloads, &app_data));
    let data_path = strings(&["home", "u", ".local", "share", "app", "media"]);
    assert!(output_path_allowed(&data_path, &downloads, &app_data));
}

#[test]
fn decimal_formatting() {
    assert_eq!(u64_to_string(0), "0");
    assert_eq!(u64_to_string(7), "7");
    assert_eq!(u64_to_string(1234567890), "1234567890");
    assert_eq!(u64_to_string(u64::MAX), "18446744073709551615");
}
