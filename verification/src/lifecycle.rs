//! The lifecycle supervisor's decisions: gating each poll iteration on the
//! registry, classifying a probed exit, and assembling the diagnostic text
//! of a failed job, truncated to a fixed bound.
//!
//! The polling loop itself performs I/O (a non-blocking probe of the child
//! process on a timed cadence) and therefore lives outside the library; it
//! feeds every observation through these functions and obeys the returned
//! decision.

use vstd::prelude::*;
use crate::events::Status;
use crate::strutil::{dec_digits, append_dec_u64};

verus! {

/// Character bound on diagnostic text taken from a failed job's standard
/// error; longer text is cut here and a truncation marker is appended.
pub const ERROR_TEXT_LIMIT: usize = 500;

/// What one non-blocking probe of the child process observed.
#[derive(Debug, Clone, Copy, PartialEq, Eq)]
pub enum Probe {
    /// The process has not exited yet.
    StillRunning,
    /// The process exited with this code (`None`: terminated by a signal).
    Exited(Option<i32>),
    /// The probe itself failed with an operating-system error.
    Failed,
}

/// What the registry said about the job right before a probe.
#[derive(Debug, Clone, Copy, PartialEq, Eq)]
pub enum PollGate {
    /// The job is gone from the registry (cancellation already reported it):
    /// stop polling silently.
    StopAbsent,
    /// The job is marked cancelled: stop polling immediately; the
    /// cancellation event, not the poller, is authoritative.
    StopCancelled,
    /// The job is present and not cancelled: go on and probe.
    Proceed,
}

/// What the polling loop must do after a probe.
#[derive(Debug, Clone, Copy, PartialEq, Eq)]
pub enum PollStep {
    /// Wait one interval and poll again.
    KeepPolling,
    /// Remove the job and emit the terminal completed event.
    ReportCompleted,
    /// Read standard error, remove the job, and emit the terminal error
    /// event for this exit code.
    ReportError(Option<i32>),
    /// Emit a generic status-check-failure event and stop polling, without
    /// guaranteed registry removal.
    ReportProbeFailure,
}

/// Decides whether a poll iteration may proceed, from the registry's answer
/// about the job (`None`: absent; `Some(flag)`: present with that
/// cancellation flag).
pub fn poll_gate(lookup: Option<bool>) -> (r: PollGate)
    ensures
        lookup == None::<bool> ==> r == PollGate::StopAbsent,
        lookup == Some(true) ==> r == PollGate::StopCancelled,
        lookup == Some(false) ==> r == PollGate::Proceed,
{
    match lookup {
        None => PollGate::StopAbsent,
        Some(true) => PollGate::StopCancelled,
        Some(false) => PollGate::Proceed,
    }
}

/// Classifies a probe: exit code zero is success, any other exit is a
/// failure carrying its code, a failed probe is reported as such.
pub fn classify_exit(probe: Probe) -> (r: PollStep)
    ensures
        probe == Probe::StillRunning ==> r == PollStep::KeepPolling,
        probe == Probe::Exited(Some(0i32)) ==> r == PollStep::ReportCompleted,
        forall|c: Option<i32>|
            probe == Probe::Exited(c) && c != Some(0i32) ==> r == PollStep::ReportError(c),
        probe == Probe::Failed ==> r == PollStep::ReportProbeFailure,
{
    match probe {
        Probe::StillRunning => PollStep::KeepPolling,
        Probe::Exited(code) => {
            match code {
                Some(c) => {
                    if c == 0 {
                        PollStep::ReportCompleted
                    } else {
                        PollStep::ReportError(Some(c))
                    }
                },
                None => PollStep::ReportError(None),
            }
        },
        Probe::Failed => PollStep::ReportProbeFailure,
    }
}

/// A status in which a job's history ends; exactly one such status is
/// reported per job.
pub open spec fn is_terminal_status_spec(s: Status) -> bool {
    s == Status::Completed || s == Status::Error || s == Status::Cancelled
}

/// Whether a status is terminal.
pub fn is_terminal_status(s: Status) -> (r: bool)
    ensures
        r == is_terminal_status_spec(s),
{
    match s {
        Status::Completed | Status::Error | Status::Cancelled => true,
        Status::Starting | Status::Downloading => false,
    }
}

/// The job status machine: `Starting` is left on the first progress event
/// or the first decisive poll; `Downloading` ends in a terminal status;
/// `Cancelled` can be entered from any non-terminal status; no terminal
/// status is ever left.
pub open spec fn status_may_step(from: Status, to: Status) -> bool {
    from == to || (!is_terminal_status_spec(from) && (to == Status::Downloading
        || is_terminal_status_spec(to)))
}

/// Law: a terminal status is final — the status machine admits no step out
/// of it — and cancellation is reachable from every non-terminal status.
pub proof fn lemma_terminal_status_is_final(from: Status, to: Status)
    ensures
        is_terminal_status_spec(from) && status_may_step(from, to) ==> to == from,
        !is_terminal_status_spec(from) ==> status_may_step(from, Status::Cancelled),
{
}

/// Decimal representation of a signed value: a minus sign before the digits
/// of the magnitude.
pub open spec fn dec_digits_signed(n: int) -> Seq<char> {
    if n < 0 {
        seq!['-'] + dec_digits((-n) as nat)
    } else {
        dec_digits(n as nat)
    }
}

/// Characters that stand for an exit code in diagnostic text.
pub open spec fn exit_code_chars(code: Option<i32>) -> Seq<char> {
    match code {
        Some(c) => dec_digits_signed(c as int),
        None => "unknown"@,
    }
}

/// The diagnostic text of a failed job. Standard-error content is passed
/// through, cut to `ERROR_TEXT_LIMIT` characters with a marker appended when
/// longer; when it is empty or was not available, a generic message carries
/// the exit code instead.
pub open spec fn error_text_spec(code: Option<i32>, stderr: Option<Seq<char>>) -> Seq<char> {
    match stderr {
        Some(t) => if t.len() == 0 {
            "Download failed with exit code "@ + exit_code_chars(code) + " (no stderr output)"@
        } else if t.len() > ERROR_TEXT_LIMIT as int {
            t.subrange(0, ERROR_TEXT_LIMIT as int) + "... (truncated)"@
        } else {
            t
        },
        None => "Download failed with exit code "@ + exit_code_chars(code)
            + " (stderr not available)"@,
    }
}

/// Appends the decimal representation of `n`, with a sign when negative.
fn append_dec_i32(out: &mut String, n: i32)
    ensures
        final(out)@ == old(out)@ + dec_digits_signed(n as int),
{
    if n < 0 {
        out.append("-");
        let m: u64 = (-(n as i64)) as u64;
        append_dec_u64(out, m);
        proof {
            reveal_strlit("-");
            assert(final(out)@ =~= old(out)@ + dec_digits_signed(n as int));
        }
    } else {
        append_dec_u64(out, n as u64);
    }
}

/// Builds the diagnostic text of a failed job from its exit code and the
/// decoded standard-error content, if any was obtained.
pub fn build_error_text(code: Option<i32>, stderr: Option<&str>) -> (r: String)
    ensures
        r@ == error_text_spec(
            code,
            match stderr {
                Some(t) => Some(t@),
                None => None,
            },
        ),
{
    match stderr {
        Some(t) => {
            let n = t.unicode_len();
            if n == 0 {
                generic_error_text(code, " (no stderr output)")
            } else if n > ERROR_TEXT_LIMIT {
                let head = t.substring_char(0, ERROR_TEXT_LIMIT);
                let r = String::from_str(head).concat("... (truncated)");
                r
            } else {
                String::from_str(t)
            }
        },
        None => generic_error_text(code, " (stderr not available)"),
    }
}

/// The generic failure message: the exit code framed by fixed words.
fn generic_error_text(code: Option<i32>, tail: &str) -> (r: String)
    ensures
        r@ == "Download failed with exit code "@ + exit_code_chars(code) + tail@,
{
    let mut out = String::from_str("Download failed with exit code ");
    match code {
        Some(c) => append_dec_i32(&mut out, c),
        None => out.append("unknown"),
    }
    out.append(tail);
    out
}

/// The fixed diagnostic text used when the probe itself failed.
pub fn probe_failure_text() -> (r: String)
    ensures
        r@ == "Failed to check process status"@,
{
    String::from_str("Failed to check process status")
}

} // verus!
