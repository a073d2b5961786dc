//! Submission, terminal reporting and cancellation of jobs, tied to the
//! registry: the decision parts of the per-job supervisory tasks. The
//! process I/O around them (spawning, probing, killing, stream reads)
//! happens outside the library and feeds its observations through here.

use vstd::prelude::*;
use crate::events::{
    DownloadItem, MediaKind, Status, PROGRESS_COMPLETE, completed_event, error_event,
    starting_event,
};
use crate::ids::fresh_job_id;
use crate::launcher::{build_download_args, download_args};
use crate::lifecycle::error_text_spec;
use crate::registry::{Job, Registry, RegistryError};
use crate::url::{is_valid_youtube_url, is_valid_youtube_url_spec};

verus! {

/// The synchronous gate of a submission: the URL must pass the allow-list
/// before any process is spawned; past it, the argument vector of the
/// invocation is fixed deterministically. Rejection happens before any
/// side effect, with the submission commands' error message.
pub fn prepare_download(url: &str, kind: MediaKind, quality: &str, output_dir: &str) -> (r: Result<
    Vec<String>,
    String,
>)
    ensures
        is_valid_youtube_url_spec(url@) ==> (r matches Ok(args) && args.deep_view()
            == download_args(kind, quality@, output_dir@, url@)),
        !is_valid_youtube_url_spec(url@) ==> (r matches Err(m) && m@
            == "Invalid URL. Only YouTube URLs (youtube.com or youtu.be) are allowed."@),
{
    if !is_valid_youtube_url(url) {
        return Err(String::from_str(
            "Invalid URL. Only YouTube URLs (youtube.com or youtu.be) are allowed.",
        ));
    }
    Ok(build_download_args(kind, quality, output_dir, url))
}

/// Registers a freshly spawned process under a new random identifier and
/// builds the initial `Starting` event. On the (never expected) collision
/// of identifiers nothing is registered.
pub fn submit_spawned_job<P, O, E>(
    reg: &mut Registry<P, O, E>,
    process: P,
    stdout: Option<O>,
    stderr: Option<E>,
    url: String,
    title: String,
    output_dir: String,
    kind: MediaKind,
) -> (r: Result<(String, DownloadItem), RegistryError>)
    requires
        old(reg).wf(),
    ensures
        final(reg).wf(),
        match r {
            Ok((id, ev)) => {
                &&& id@.len() == 36
                &&& !old(reg)@.contains_key(id@)
                &&& final(reg)@ == old(reg)@.insert(
                    id@,
                    (Job { process, stdout, stderr, output_dir, title, cancelled: false }),
                )
                &&& ev == (DownloadItem {
                    id,
                    url,
                    title,
                    progress: 0,
                    status: Status::Starting,
                    download_type: kind,
                    error: None,
                })
            },
            Err(e) => e == RegistryError::DuplicateId && final(reg)@ == old(reg)@,
        },
{
    let id = fresh_job_id();
    let job = Job::new(process, stdout, stderr, output_dir, title.clone());
    match reg.insert(id.clone(), job) {
        Ok(()) => {
            let ev = starting_event(id.clone(), url, title, kind);
            Ok((id, ev))
        },
        Err(e) => Err(e),
    }
}

/// The terminal event of an exited process: exit code zero is reported as
/// completed with progress forced to exactly 100 percent, whatever the
/// last parsed percentage was; any other exit is reported as an error
/// carrying the (bounded) diagnostic text built from standard error.
pub fn exit_report(id: String, kind: MediaKind, code: Option<i32>, stderr: Option<&str>) -> (r:
    DownloadItem)
    ensures
        r.id == id,
        r.download_type == kind,
        code == Some(0i32) ==> r.status == Status::Completed && r.progress == PROGRESS_COMPLETE
            && r.error == None::<String>,
        code != Some(0i32) ==> r.status == Status::Error && (r.error matches Some(t) && t@
            == error_text_spec(
            code,
            match stderr {
                Some(t) => Some(t@),
                None => None,
            },
        )),
{
    let is_success = match code {
        Some(c) => c == 0,
        None => false,
    };
    if is_success {
        completed_event(id, kind)
    } else {
        let text = crate::lifecycle::build_error_text(code, stderr);
        error_event(id, kind, text)
    }
}

/// The terminal transition of a job whose process exited: removes it from
/// the registry (exactly this one removal happens on the natural-exit
/// path) and builds its terminal event. `None` when the identifier is
/// already gone — cancellation removed it and its event is authoritative.
pub fn finish_job<P, O, E>(
    reg: &mut Registry<P, O, E>,
    id: &String,
    kind: MediaKind,
    code: Option<i32>,
    stderr: Option<&str>,
) -> (r: Option<DownloadItem>)
    requires
        old(reg).wf(),
    ensures
        final(reg).wf(),
        final(reg)@ == old(reg)@.remove(id@),
        !old(reg)@.contains_key(id@) ==> r matches None,
        old(reg)@.contains_key(id@) ==> (r matches Some(ev) && ev.id == *id && ev.download_type
            == kind && (code == Some(0i32) ==> ev.status == Status::Completed && ev.progress
            == PROGRESS_COMPLETE && ev.error == None::<String>) && (code != Some(0i32)
            ==> ev.status == Status::Error && (ev.error matches Some(t) && t@ == error_text_spec(
            code,
            match stderr {
                Some(s) => Some(s@),
                None => None,
            },
        )))),
{
    match reg.remove(id) {
        Some(_) => Some(exit_report(id.clone(), kind, code, stderr)),
        None => {
            proof {
                assert(old(reg)@.remove(id@) =~= old(reg)@);
            }
            None
        },
    }
}

/// What cancellation does to the registry's contents: an absent identifier
/// fails with "not found" and changes nothing; a present one has its flag
/// set, is removed, and its job (flag set) is handed to the caller.
pub open spec fn cancel_outcome<P, O, E>(
    m: Map<Seq<char>, Job<P, O, E>>,
    id: Seq<char>,
) -> (Result<Job<P, O, E>, RegistryError>, Map<Seq<char>, Job<P, O, E>>) {
    if m.contains_key(id) {
        (Ok((Job { cancelled: true, ..m[id] })), m.remove(id))
    } else {
        (Err(RegistryError::NotFound), m)
    }
}

/// Cancels a job: sets its cancellation flag (so its supervisory tasks stop
/// at their next check) and removes it from the registry, handing the
/// caller exclusive ownership of the process handle, title and output
/// directory for termination and cleanup. Fails with `NotFound` when the
/// job already finished or was already cancelled.
pub fn cancel_job<P, O, E>(reg: &mut Registry<P, O, E>, id: &String) -> (r: Result<
    Job<P, O, E>,
    RegistryError,
>)
    requires
        old(reg).wf(),
    ensures
        final(reg).wf(),
        r == cancel_outcome(old(reg)@, id@).0,
        final(reg)@ == cancel_outcome(old(reg)@, id@).1,
{
    match reg.mark_cancelled(id) {
        Ok(()) => {
            let ghost marked = (Job { cancelled: true, ..old(reg)@[id@] });
            match reg.remove(id) {
                Some(job) => {
                    proof {
                        assert(old(reg)@.insert(id@, marked).remove(id@) =~= old(reg)@.remove(
                            id@,
                        ));
                    }
                    Ok(job)
                },
                None => {
                    proof {
                        assert(false);
                    }
                    Err(RegistryError::NotFound)
                },
            }
        },
        Err(_) => Err(RegistryError::NotFound),
    }
}

/// Law: one entry per identifier, removed exactly once. Under any registry
/// contents, a fresh identifier maps to exactly the one job its insertion
/// put there, removing it restores the old contents, a removed identifier
/// is absent, and removing it again changes nothing.
pub proof fn lemma_registry_exclusive<P, O, E>(
    m: Map<Seq<char>, Job<P, O, E>>,
    id: Seq<char>,
    job: Job<P, O, E>,
)
    requires
        !m.contains_key(id),
    ensures
        m.insert(id, job).contains_key(id),
        m.insert(id, job)[id] == job,
        m.insert(id, job).remove(id) == m,
        !m.remove(id).contains_key(id),
        m.remove(id).remove(id) == m.remove(id),
{
    assert(m.insert(id, job).remove(id) =~= m);
    assert(m.remove(id) =~= m);
    assert(m.remove(id).remove(id) =~= m.remove(id));
}

/// Law: cancelling an identifier that is not in the registry fails with
/// "not found" and changes nothing, and cancelling the same identifier
/// twice in a row has the second call fail identically, whatever the first
/// one did.
pub proof fn lemma_cancel_twice<P, O, E>(m: Map<Seq<char>, Job<P, O, E>>, id: Seq<char>)
    ensures
        !m.contains_key(id) ==> cancel_outcome(m, id).0 == Err::<Job<P, O, E>, RegistryError>(
            RegistryError::NotFound,
        ) && cancel_outcome(m, id).1 == m,
        cancel_outcome(cancel_outcome(m, id).1, id).0 == Err::<Job<P, O, E>, RegistryError>(
            RegistryError::NotFound,
        ),
        cancel_outcome(cancel_outcome(m, id).1, id).1 == cancel_outcome(m, id).1,
{
    if m.contains_key(id) {
        assert(!m.remove(id).contains_key(id));
    }
}

} // verus!
