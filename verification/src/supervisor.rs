//! Composition of the terminal report.
//!
//! When the supervised run ends — normally or on any internal failure — the
//! supervisor sends exactly one terminal ping.  This module decides, from
//! what the run came to, the body of that ping, the final exit code and
//! whether the message is echoed to standard error.  Every path that reaches
//! the child spawn maps to one report; the planner is a total function, so no
//! branch can produce none or two.

use crate::num::{dec_signed, i32_to_dec};
use vstd::prelude::*;
use vstd::slice::slice_to_vec;
use vstd::string::StringSliceAdditionalSpecFns;

verus! {

/// Exit code when the child could not be spawned.
pub const EXIT_HCP_SPAWN: i32 = 961;

/// Exit code when reading a child stream or waiting for the child failed.
pub const EXIT_HCP_IO: i32 = 962;

/// Exit code when the health-check service could not be reached.
pub const EXIT_HCP_HTTP: i32 = 963;

/// Exit code when the child terminated without a numeric code.
pub const EXIT_HCP_UNKNOWN: i32 = 964;

/// Which of the child's two output streams is meant.
#[derive(Debug, Clone, Copy, PartialEq, Eq, Structural)]
pub enum StreamKind {
    Stdout,
    Stderr,
}

/// How a supervised run came to its end.
#[derive(Debug, PartialEq)]
pub enum Outcome {
    /// The child terminated with this numeric exit code.
    Exited(i32),
    /// The child terminated, but no numeric code was surfaced.
    ExitedNoCode,
    /// The child could never start; the text describes the error.
    SpawnFailed(Vec<u8>),
    /// Waiting on the child failed; the text describes the error.
    WaitFailed(Vec<u8>),
    /// One of the tee readers failed; the text describes the error.
    StreamReadFailed(StreamKind, Vec<u8>),
}

/// The one terminal report of a run: the ping body, the supervisor's own
/// exit code (zero means the success URL), and whether the body is echoed
/// to standard error.
pub struct Report {
    pub body: Vec<u8>,
    pub code: i32,
    pub log: bool,
}

/// The first line of the terminal message, fixed by the outcome.
pub open spec fn spec_header(o: Outcome) -> Seq<u8> {
    match o {
        Outcome::Exited(c) => "Command exited with exit code ".spec_bytes() + dec_signed(c as int)
            + seq![10u8],
        Outcome::ExitedNoCode => "Command exited without an exit code\n".spec_bytes(),
        Outcome::SpawnFailed(m) => "Failed to spawn process: ".spec_bytes() + m@,
        Outcome::WaitFailed(m) => "Failed waiting for process: ".spec_bytes() + m@,
        Outcome::StreamReadFailed(StreamKind::Stdout, m) => "Error reading stdout from child: ".spec_bytes()
            + m@,
        Outcome::StreamReadFailed(StreamKind::Stderr, m) => "Error reading stderr from child: ".spec_bytes()
            + m@,
    }
}

/// The captured tails, appended verbatim: a `stdout:` section when the
/// stdout tail is non-empty, a `stderr:` section when the stderr tail is,
/// with a blank line between the two when both appear.
pub open spec fn spec_tail_sections(out: Seq<u8>, err: Seq<u8>) -> Seq<u8> {
    (if out.len() > 0 {
        "stdout:\n".spec_bytes() + out + seq![10u8]
    } else {
        Seq::<u8>::empty()
    }) + (if err.len() > 0 {
        (if out.len() > 0 {
            seq![10u8]
        } else {
            Seq::<u8>::empty()
        }) + "stderr:\n".spec_bytes() + err + seq![10u8]
    } else {
        Seq::<u8>::empty()
    })
}

/// The whole terminal message: the header, and for a child that terminated
/// (with or without a code) the captured tails.
pub open spec fn spec_body(o: Outcome, out: Seq<u8>, err: Seq<u8>) -> Seq<u8> {
    match o {
        Outcome::Exited(_) => spec_header(o) + spec_tail_sections(out, err),
        Outcome::ExitedNoCode => spec_header(o) + spec_tail_sections(out, err),
        _ => spec_header(o),
    }
}

/// The supervisor's final exit code.  Ignoring the child's code turns only a
/// normal termination into success; the internal sentinels stand.
pub open spec fn spec_code(o: Outcome, ignore_code: bool) -> i32 {
    match o {
        Outcome::Exited(c) => if ignore_code {
            0
        } else {
            c
        },
        Outcome::ExitedNoCode => if ignore_code {
            0
        } else {
            EXIT_HCP_UNKNOWN
        },
        Outcome::SpawnFailed(_) => EXIT_HCP_SPAWN,
        Outcome::WaitFailed(_) => EXIT_HCP_IO,
        Outcome::StreamReadFailed(_, _) => EXIT_HCP_IO,
    }
}

/// Whether the terminal message is echoed to standard error before the ping.
pub open spec fn spec_log(o: Outcome) -> bool {
    match o {
        Outcome::SpawnFailed(_) => true,
        Outcome::WaitFailed(_) => true,
        _ => false,
    }
}

/// Appends the bytes of `s` to `out`.
fn push_str_bytes(out: &mut Vec<u8>, s: &str)
    ensures
        final(out)@ == old(out)@ + s.spec_bytes(),
{
    let mut b = slice_to_vec(s.as_bytes());
    out.append(&mut b);
}

/// Appends the tail sections to `body`.
fn append_tails(body: &mut Vec<u8>, out_tail: &[u8], err_tail: &[u8])
    ensures
        final(body)@ == old(body)@ + spec_tail_sections(out_tail@, err_tail@),
{
    let ghost b0 = body@;
    if out_tail.len() > 0 {
        push_str_bytes(body, "stdout:\n");
        let mut t = slice_to_vec(out_tail);
        body.append(&mut t);
        body.push(10);
    }
    if err_tail.len() > 0 {
        if out_tail.len() > 0 {
            body.push(10);
        }
        push_str_bytes(body, "stderr:\n");
        let mut t = slice_to_vec(err_tail);
        body.append(&mut t);
        body.push(10);
    }
    proof {
        assert(body@ =~= b0 + spec_tail_sections(out_tail@, err_tail@));
    }
}

/// Builds the one report of a run from its outcome and the captured tails.
/// The body carries the tails verbatim as bytes; the code ignores the
/// child's own only when asked to, and only for a normal termination.
pub fn compose_report(outcome: &Outcome, out_tail: &[u8], err_tail: &[u8], ignore_code: bool) -> (r:
    Report)
    ensures
        r.body@ == spec_body(*outcome, out_tail@, err_tail@),
        r.code == spec_code(*outcome, ignore_code),
        r.log == spec_log(*outcome),
{
    match outcome {
        Outcome::Exited(c) => {
            let mut body: Vec<u8> = Vec::new();
            push_str_bytes(&mut body, "Command exited with exit code ");
            let mut digits = i32_to_dec(*c);
            body.append(&mut digits);
            body.push(10);
            proof {
                assert(body@ =~= spec_header(*outcome));
            }
            append_tails(&mut body, out_tail, err_tail);
            let code: i32 = if ignore_code {
                0
            } else {
                *c
            };
            Report { body, code, log: false }
        },
        Outcome::ExitedNoCode => {
            let mut body: Vec<u8> = Vec::new();
            push_str_bytes(&mut body, "Command exited without an exit code\n");
            proof {
                assert(body@ =~= spec_header(*outcome));
            }
            append_tails(&mut body, out_tail, err_tail);
            let code: i32 = if ignore_code {
                0
            } else {
                EXIT_HCP_UNKNOWN
            };
            Report { body, code, log: false }
        },
        Outcome::SpawnFailed(m) => {
            let mut body: Vec<u8> = Vec::new();
            push_str_bytes(&mut body, "Failed to spawn process: ");
            let mut t = slice_to_vec(m.as_slice());
            body.append(&mut t);
            Report { body, code: EXIT_HCP_SPAWN, log: true }
        },
        Outcome::WaitFailed(m) => {
            let mut body: Vec<u8> = Vec::new();
            push_str_bytes(&mut body, "Failed waiting for process: ");
            let mut t = slice_to_vec(m.as_slice());
            body.append(&mut t);
            Report { body, code: EXIT_HCP_IO, log: true }
        },
        Outcome::StreamReadFailed(which, m) => {
            let mut body: Vec<u8> = Vec::new();
            match which {
                StreamKind::Stdout => push_str_bytes(&mut body, "Error reading stdout from child: "),
                StreamKind::Stderr => push_str_bytes(&mut body, "Error reading stderr from child: "),
            }
            let mut t = slice_to_vec(m.as_slice());
            body.append(&mut t);
            Report { body, code: EXIT_HCP_IO, log: false }
        },
    }
}

/// The report of a run that was given no command at all: a success ping with
/// a fixed body, exit code zero, echoed to standard error.
pub fn no_command_report() -> (r: Report)
    ensures
        r.body@ == "No command given".spec_bytes(),
        r.code == 0,
        r.log == true,
{
    let mut body: Vec<u8> = Vec::new();
    push_str_bytes(&mut body, "No command given");
    proof {
        assert(body@ =~= "No command given".spec_bytes());
    }
    Report { body, code: 0, log: true }
}

/// What waiting on the child came to.
#[derive(Debug, PartialEq)]
pub enum WaitResult {
    /// The child terminated; its numeric exit code, when one was surfaced.
    Status(Option<i32>),
    /// The wait itself failed; the text describes the error.
    WaitError(Vec<u8>),
}

/// What one tee reader came to.
#[derive(Debug, PartialEq)]
pub enum JoinResult {
    /// The stream was drained; its retained tail.
    Tail(Vec<u8>),
    /// Reading the stream failed; the text describes the error.
    ReadError(Vec<u8>),
}

/// The outcome of a run that reached the child spawn, classified in the
/// order the supervisor asks: a wait failure first, then a stdout read
/// failure (the stderr reader's error, if any, is discarded), then a stderr
/// read failure, then the child's own termination.
pub open spec fn spec_outcome(wait: WaitResult, oj: JoinResult, ej: JoinResult) -> Outcome {
    match wait {
        WaitResult::WaitError(m) => Outcome::WaitFailed(m),
        WaitResult::Status(code) => match oj {
            JoinResult::ReadError(m) => Outcome::StreamReadFailed(StreamKind::Stdout, m),
            JoinResult::Tail(_) => match ej {
                JoinResult::ReadError(m) => Outcome::StreamReadFailed(StreamKind::Stderr, m),
                JoinResult::Tail(_) => match code {
                    Some(c) => Outcome::Exited(c),
                    None => Outcome::ExitedNoCode,
                },
            },
        },
    }
}

/// The stdout tail that reaches the report: empty unless both readers
/// drained their stream.
pub open spec fn spec_out_tail(oj: JoinResult, ej: JoinResult) -> Seq<u8> {
    match (oj, ej) {
        (JoinResult::Tail(out), JoinResult::Tail(_)) => out@,
        _ => Seq::<u8>::empty(),
    }
}

/// The stderr tail that reaches the report: empty unless both readers
/// drained their stream.
pub open spec fn spec_err_tail(oj: JoinResult, ej: JoinResult) -> Seq<u8> {
    match (oj, ej) {
        (JoinResult::Tail(_), JoinResult::Tail(err)) => err@,
        _ => Seq::<u8>::empty(),
    }
}

/// Plans the one terminal report of a run that reached the child spawn.
/// Whatever the wait and the two readers came to, this is a total function:
/// each run maps to exactly one report, never none and never two.
pub fn plan_after_spawn(wait: &WaitResult, oj: &JoinResult, ej: &JoinResult, ignore_code: bool) -> (
    r: Report)
    ensures
        r.body@ == spec_body(
            spec_outcome(*wait, *oj, *ej),
            spec_out_tail(*oj, *ej),
            spec_err_tail(*oj, *ej),
        ),
        r.code == spec_code(spec_outcome(*wait, *oj, *ej), ignore_code),
        r.log == spec_log(spec_outcome(*wait, *oj, *ej)),
{
    match wait {
        WaitResult::WaitError(m) => {
            let outcome = Outcome::WaitFailed(slice_to_vec(m.as_slice()));
            let empty: Vec<u8> = Vec::new();
            compose_report(&outcome, empty.as_slice(), empty.as_slice(), ignore_code)
        },
        WaitResult::Status(code) => match oj {
            JoinResult::ReadError(m) => {
                let outcome = Outcome::StreamReadFailed(
                    StreamKind::Stdout,
                    slice_to_vec(m.as_slice()),
                );
                let empty: Vec<u8> = Vec::new();
                compose_report(&outcome, empty.as_slice(), empty.as_slice(), ignore_code)
            },
            JoinResult::Tail(out) => match ej {
                JoinResult::ReadError(m) => {
                    let outcome = Outcome::StreamReadFailed(
                        StreamKind::Stderr,
                        slice_to_vec(m.as_slice()),
                    );
                    let empty: Vec<u8> = Vec::new();
                    compose_report(&outcome, empty.as_slice(), empty.as_slice(), ignore_code)
                },
                JoinResult::Tail(err) => {
                    let outcome = match code {
                        Some(c) => Outcome::Exited(*c),
                        None => Outcome::ExitedNoCode,
                    };
                    compose_report(&outcome, out.as_slice(), err.as_slice(), ignore_code)
                },
            },
        },
    }
}

} // verus!
