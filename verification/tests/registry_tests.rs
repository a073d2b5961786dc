use ytdl_supervisor::registry::{Job, Registry, RegistryError};
use ytdl_supervisor::supervisor::{cancel_job, finish_job, submit_spawned_job};
use ytdl_supervisor::events::{MediaKind, Status};

fn job(tag: u8) -> Job<u8, u8, u8> {
    Job::new(tag, Some(10), Some(20), "/tmp/out".to_string(), "A Title".to_string())
}

#[test]
fn insert_and_lookup() {
    let mut reg: Registry<u8, u8, u8> = Registry::new();
    assert!(!reg.contains_job(&"a".to_string()));
    assert!(reg.insert("a".to_string(), job(1)).is_ok());
    assert!(reg.contains_job(&"a".to_string()));
    assert_eq!(reg.get_cancelled(&"a".to_string()), Some(false));
    assert_eq!(reg.get_cancelled(&"b".to_string()), None);
}

#[test]
fn duplicate_insert_refused() {
    let mut reg: Registry<u8, u8, u8> = Registry::new();
    assert!(reg.insert("a".to_string(), job(1)).is_ok());
    assert_eq!(reg.insert("a".to_string(), job(2)), Err(RegistryError::DuplicateId));
    // the first job is untouched
    let j = reg.remove(&"a".to_string()).unwrap();
    assert_eq!(j.process, 1);
}

#[test]
fn remove_returns_job_once() {
    let mut reg: Registry<u8, u8, u8> = Registry::new();
    assert!(reg.insert("a".to_string(), job(7)).is_ok());
    let j = reg.remove(&"a".to_string());
    assert!(j.is_some());
    assert_eq!(j.unwrap().title, "A Title");
    assert!(reg.remove(&"a".to_string()).is_none());
}

#[test]
fn mark_cancelled_sets_flag() {
    let mut reg: Registry<u8, u8, u8> = Registry::new();
    assert!(reg.insert("a".to_string(), job(1)).is_ok());
    assert!(reg.mark_cancelled(&"a".to_string()).is_ok());
    assert_eq!(reg.get_cancelled(&"a".to_string()), Some(true));
    assert_eq!(reg.mark_cancelled(&"b".to_string()), Err(RegistryError::NotFound));
}

#[test]
fn stream_handles_taken_out_once() {
    let mut reg: Registry<u8, u8, u8> = Registry::new();
    assert!(reg.insert("a".to_string(), job(1)).is_ok());
    assert_eq!(reg.take_stdout(&"a".to_string()), Some(10));
    assert_eq!(reg.take_stdout(&"a".to_string()), None);
    assert_eq!(reg.take_stderr(&"a".to_string()), Some(20));
    assert_eq!(reg.take_stderr(&"a".to_string()), None);
    assert_eq!(reg.take_stdout(&"missing".to_string()), None);
}

#[test]
fn cancel_not_found() {
    let mut reg: Registry<u8, u8, u8> = Registry::new();
    let r = cancel_job(&mut reg, &"ghost".to_string());
    assert!(matches!(r, Err(RegistryError::NotFound)));
}

#[test]
fn cancel_twice_second_fails_identically() {
    let mut reg: Registry<u8, u8, u8> = Registry::new();
    assert!(reg.insert("a".to_string(), job(1)).is_ok());
    let first = cancel_job(&mut reg, &"a".to_string());
    assert!(first.is_ok());
    let j = first.unwrap();
    assert!(j.cancelled);
    assert_eq!(j.title, "A Title");
    assert_eq!(j.output_dir, "/tmp/out");
    let second = cancel_job(&mut reg, &"a".to_string());
    assert!(matches!(second, Err(RegistryError::NotFound)));
}

#[test]
fn cancel_leaves_other_jobs_alone() {
    let mut reg: Registry<u8, u8, u8> = Registry::new();
    assert!(reg.insert("a".to_string(), job(1)).is_ok());
    assert!(reg.insert("b".to_string(), job(2)).is_ok());
    assert!(cancel_job(&mut reg, &"a".to_string()).is_ok());
    assert!(!reg.contains_job(&"a".to_string()));
    assert!(reg.contains_job(&"b".to_string()));
    assert_eq!(reg.get_cancelled(&"b".to_string()), Some(false));
}

#[test]
fn finishing_removes_the_job_and_reports_once() {
    let mut reg: Registry<u8, u8, u8> = Registry::new();
    assert!(reg.insert("a".to_string(), job(1)).is_ok());
    let ev = finish_job(&mut reg, &"a".to_string(), MediaKind::Video, Some(0), None).unwrap();
    assert_eq!(ev.status, Status::Completed);
    assert_eq!(ev.progress, 100000);
    assert!(!reg.contains_job(&"a".to_string()));
    // a second report finds nothing: the one removal already happened
    assert!(finish_job(&mut reg, &"a".to_string(), MediaKind::Video, Some(0), None).is_none());
}

#[test]
fn finishing_a_cancelled_job_stays_silent() {
    let mut reg: Registry<u8, u8, u8> = Registry::new();
    assert!(reg.insert("a".to_string(), job(1)).is_ok());
    assert!(cancel_job(&mut reg, &"a".to_string()).is_ok());
    // the cancellation event is authoritative; the poller reports nothing
    assert!(finish_job(&mut reg, &"a".to_string(), MediaKind::Video, Some(1), Some("late")).is_none());
}

#[test]
fn finishing_with_failure_carries_diagnostic_text() {
    let mut reg: Registry<u8, u8, u8> = Registry::new();
    assert!(reg.insert("a".to_string(), job(1)).is_ok());
    let ev = finish_job(&mut reg, &"a".to_string(), MediaKind::Video, Some(2), Some("boom"))
        .unwrap();
    assert_eq!(ev.status, Status::Error);
    assert_eq!(ev.error.as_deref(), Some("boom"));
}

#[test]
fn submit_registers_job_and_reports_starting() {
    let mut reg: Registry<u8, u8, u8> = Registry::new();
    let r = submit_spawned_job(
        &mut reg,
        1u8,
        Some(10),
        Some(20),
        "https://youtu.be/abc".to_string(),
        "A Title".to_string(),
        "/tmp/out".to_string(),
        MediaKind::Video,
    );
    let (id, ev) = r.unwrap();
    // a fresh identifier prints as 36 characters
    assert_eq!(id.chars().count(), 36);
    assert!(reg.contains_job(&id));
    assert_eq!(ev.id, id);
    assert_eq!(ev.status, Status::Starting);
    assert_eq!(ev.progress, 0);
    assert_eq!(ev.title, "A Title");
    assert_eq!(ev.url, "https://youtu.be/abc");
    assert_eq!(ev.error, None);
}

#[test]
fn submitted_jobs_get_distinct_ids() {
    let mut reg: Registry<u8, u8, u8> = Registry::new();
    let a = submit_spawned_job(
        &mut reg,
        1u8,
        None,
        None,
        "u1".to_string(),
        "t1".to_string(),
        "/tmp".to_string(),
        MediaKind::Audio,
    )
    .unwrap();
    let b = submit_spawned_job(
        &mut reg,
        2u8,
        None,
        None,
        "u2".to_string(),
        "t2".to_string(),
        "/tmp".to_string(),
        MediaKind::Audio,
    )
    .unwrap();
    assert_ne!(a.0, b.0);
    assert!(reg.contains_job(&a.0));
    assert!(reg.contains_job(&b.0));
}
