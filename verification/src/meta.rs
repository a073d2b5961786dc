//! Assembly of video and playlist metadata from the fields the external
//! tool's per-entry records yield. Running the tool and decoding its JSON
//! records happen on the caller's side; what comes in here are the plain
//! optional fields of each record.

use vstd::prelude::*;
use crate::strutil::{dec_digits, append_dec_u64};

verus! {

/// One video of a playlist, as reported by the metadata fetch.
pub struct VideoInfo {
    pub id: String,
    pub title: String,
    pub url: String,
    pub duration: Option<String>,
    pub thumbnail: Option<String>,
}

/// A resolved playlist: display title, entry count, and the entries.
pub struct PlaylistInfo {
    pub title: String,
    pub video_count: u32,
    pub videos: Vec<VideoInfo>,
}

/// The canonical watch URL of a video identifier.
pub open spec fn watch_url_of(id: Seq<char>) -> Seq<char> {
    "https://www.youtube.com/watch?v="@ + id
}

/// Builds one playlist entry from the optional fields of its record:
/// missing identifier and title fall back to placeholders, and the entry's
/// URL is the canonical watch URL of the identifier (empty when missing).
pub fn make_video_info(
    id: Option<String>,
    title: Option<String>,
    duration: Option<String>,
    thumbnail: Option<String>,
) -> (r: VideoInfo)
    ensures
        r.id@ == (match id {
            Some(i) => i@,
            None => "unknown"@,
        }),
        r.title@ == (match title {
            Some(t) => t@,
            None => "Unknown"@,
        }),
        r.url@ == watch_url_of(
            match id {
                Some(i) => i@,
                None => Seq::<char>::empty(),
            },
        ),
        r.duration == duration,
        r.thumbnail == thumbnail,
{
    let ghost id0 = id;
    let (id_s, url): (String, String) = match id {
        Some(i) => {
            let mut u = String::from_str("https://www.youtube.com/watch?v=");
            u.append(i.as_str());
            (i, u)
        },
        None => (
            String::from_str("unknown"),
            String::from_str("https://www.youtube.com/watch?v="),
        ),
    };
    proof {
        assert(url@ =~= watch_url_of(
            match id0 {
                Some(i) => i@,
                None => Seq::<char>::empty(),
            },
        ));
    }
    let title_s: String = match title {
        Some(t) => t,
        None => String::from_str("Unknown"),
    };
    VideoInfo { id: id_s, title: title_s, url, duration, thumbnail }
}

/// Builds the record of a single-video fetch: unlike a playlist entry, it
/// keeps the request URL itself rather than rebuilding a watch URL.
pub fn make_requested_video_info(
    url: String,
    id: Option<String>,
    title: Option<String>,
    duration: Option<String>,
    thumbnail: Option<String>,
) -> (r: VideoInfo)
    ensures
        r.id@ == (match id {
            Some(i) => i@,
            None => "unknown"@,
        }),
        r.title@ == (match title {
            Some(t) => t@,
            None => "Unknown"@,
        }),
        r.url == url,
        r.duration == duration,
        r.thumbnail == thumbnail,
{
    let id_s: String = match id {
        Some(i) => i,
        None => String::from_str("unknown"),
    };
    let title_s: String = match title {
        Some(t) => t,
        None => String::from_str("Unknown"),
    };
    VideoInfo { id: id_s, title: title_s, url, duration, thumbnail }
}

/// The display title of a playlist with `n` entries.
pub open spec fn playlist_title(n: nat) -> Seq<char> {
    if n > 0 {
        "Playlist with "@ + dec_digits(n) + " videos"@
    } else {
        "Empty Playlist"@
    }
}

/// Wraps resolved playlist entries: the title names the entry count, an
/// empty playlist is called out as such.
pub fn make_playlist_info(videos: Vec<VideoInfo>) -> (r: PlaylistInfo)
    requires
        videos@.len() <= u32::MAX,
    ensures
        r.title@ == playlist_title(videos@.len() as nat),
        r.video_count == videos@.len(),
        r.videos == videos,
{
    let n = videos.len();
    let title: String = if n > 0 {
        let mut t = String::from_str("Playlist with ");
        append_dec_u64(&mut t, n as u64);
        t.append(" videos");
        t
    } else {
        String::from_str("Empty Playlist")
    };
    PlaylistInfo { title, video_count: n as u32, videos }
}

/// Wraps a single video as a one-entry playlist; a missing record title
/// falls back to a placeholder.
pub fn single_video_playlist(title: Option<String>, video: VideoInfo) -> (r: PlaylistInfo)
    ensures
        r.title@ == (match title {
            Some(t) => t@,
            None => "Unknown Video"@,
        }),
        r.video_count == 1,
        r.videos@.len() == 1,
        r.videos@[0] == video,
{
    let title_s: String = match title {
        Some(t) => t,
        None => String::from_str("Unknown Video"),
    };
    let mut videos: Vec<VideoInfo> = Vec::new();
    videos.push(video);
    PlaylistInfo { title: title_s, video_count: 1, videos }
}

} // verus!
