//! Events emitted to the presentation layer. Each event carries a job
//! identifier and a status tag, plus progress, title and error text where
//! they apply. Progress is held in thousandths of a percent, so `100.0%`
//! is `100_000`.

use vstd::prelude::*;
use crate::strutil::str_eq;

verus! {

/// Thousandths of a percent that stand for a fully downloaded job.
pub const PROGRESS_COMPLETE: u64 = 100000;

/// Status tag of a job, as reported to observers.
#[derive(Debug, Clone, Copy, PartialEq, Eq, Structural)]
pub enum Status {
    Starting,
    Downloading,
    Completed,
    Error,
    Cancelled,
}

/// Requested media kind of a job.
#[derive(Debug, Clone, Copy, PartialEq, Eq, Structural)]
pub enum MediaKind {
    Audio,
    Video,
}

/// The requested kind of a submission: `audio` asks for the audio path,
/// anything else is treated as a video request.
pub fn media_kind_of(requested: &str) -> (r: MediaKind)
    ensures
        requested@ == "audio"@ ==> r == MediaKind::Audio,
        requested@ != "audio"@ ==> r == MediaKind::Video,
{
    if str_eq(requested, "audio") {
        MediaKind::Audio
    } else {
        MediaKind::Video
    }
}

/// The status vocabulary of the event stream.
pub fn status_tag(s: Status) -> (r: &'static str)
    ensures
        s == Status::Starting ==> r@ == "starting"@,
        s == Status::Downloading ==> r@ == "downloading"@,
        s == Status::Completed ==> r@ == "completed"@,
        s == Status::Error ==> r@ == "error"@,
        s == Status::Cancelled ==> r@ == "cancelled"@,
{
    match s {
        Status::Starting => "starting",
        Status::Downloading => "downloading",
        Status::Completed => "completed",
        Status::Error => "error",
        Status::Cancelled => "cancelled",
    }
}

/// The kind vocabulary of the event stream.
pub fn kind_tag(k: MediaKind) -> (r: &'static str)
    ensures
        k == MediaKind::Audio ==> r@ == "audio"@,
        k == MediaKind::Video ==> r@ == "video"@,
{
    match k {
        MediaKind::Audio => "audio",
        MediaKind::Video => "video",
    }
}

/// One event about one job. `progress` is in thousandths of a percent.
/// Fields that an event does not speak of hold their empty value.
#[derive(Debug, Clone)]
pub struct DownloadItem {
    pub id: String,
    pub url: String,
    pub title: String,
    pub progress: u64,
    pub status: Status,
    pub download_type: MediaKind,
    pub error: Option<String>,
}

/// The initial event of a freshly submitted job: zero progress, `Starting`.
pub fn starting_event(id: String, url: String, title: String, kind: MediaKind) -> (r: DownloadItem)
    ensures
        r == (DownloadItem {
            id,
            url,
            title,
            progress: 0,
            status: Status::Starting,
            download_type: kind,
            error: None,
        }),
{
    DownloadItem {
        id,
        url,
        title,
        progress: 0,
        status: Status::Starting,
        download_type: kind,
        error: None,
    }
}

/// A progress update: the literal parsed percentage and `Downloading`.
pub fn progress_event(id: String, kind: MediaKind, progress: u64) -> (r: DownloadItem)
    ensures
        r.id == id,
        r.progress == progress,
        r.status == Status::Downloading,
        r.download_type == kind,
        r.error == None::<String>,
        r.url@ == Seq::<char>::empty(),
        r.title@ == Seq::<char>::empty(),
{
    DownloadItem {
        id,
        url: String::new(),
        title: String::new(),
        progress,
        status: Status::Downloading,
        download_type: kind,
        error: None,
    }
}

/// The terminal event of a job whose process exited successfully: progress
/// is forced to exactly 100 percent, whatever was last reported.
pub fn completed_event(id: String, kind: MediaKind) -> (r: DownloadItem)
    ensures
        r.status == Status::Completed,
        r.progress == PROGRESS_COMPLETE,
        r.id == id,
        r.error == None::<String>,
        r.download_type == kind,
        r.url@ == Seq::<char>::empty(),
        r.title@ == Seq::<char>::empty(),
{
    DownloadItem {
        id,
        url: String::new(),
        title: String::new(),
        progress: PROGRESS_COMPLETE,
        status: Status::Completed,
        download_type: kind,
        error: None,
    }
}

/// The terminal event of a job whose process failed: carries the diagnostic
/// text and no progress claim.
pub fn error_event(id: String, kind: MediaKind, error: String) -> (r: DownloadItem)
    ensures
        r.status == Status::Error,
        r.id == id,
        r.error == Some(error),
        r.download_type == kind,
        r.progress == 0,
        r.url@ == Seq::<char>::empty(),
        r.title@ == Seq::<char>::empty(),
{
    DownloadItem {
        id,
        url: String::new(),
        title: String::new(),
        progress: 0,
        status: Status::Error,
        download_type: kind,
        error: Some(error),
    }
}

/// The terminal event of a cancelled job: carries the job's title, so
/// observers are not left with a placeholder name, and zero progress.
pub fn cancelled_event(id: String, kind: MediaKind, title: String) -> (r: DownloadItem)
    ensures
        r.status == Status::Cancelled,
        r.id == id,
        r.title == title,
        r.progress == 0,
        r.error == None::<String>,
        r.download_type == kind,
        r.url@ == Seq::<char>::empty(),
{
    DownloadItem {
        id,
        url: String::new(),
        title,
        progress: 0,
        status: Status::Cancelled,
        download_type: kind,
        error: None,
    }
}

} // verus!
