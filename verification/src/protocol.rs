//! The supervisor's reporting protocol, as a state machine.
//!
//! The runner (the unverified shell around this library) owns the outside
//! world: it sends pings, spawns the child and waits on it.  Every decision,
//! though, is taken here: `step` maps the current phase and the event the
//! world answered with to the next phase and the one action to perform.
//! On this machine the central guarantee of the supervisor is proved: a run
//! sends at most one terminal ping, and every run that reached the child
//! spawn and came to its end sent exactly one.

use crate::supervisor::{
    compose_report, no_command_report, plan_after_spawn, spec_body, spec_code, spec_err_tail,
    spec_log, spec_out_tail, spec_outcome, JoinResult, Outcome, Report, WaitResult, EXIT_HCP_HTTP,
};
use vstd::prelude::*;
use vstd::string::StringSliceAdditionalSpecFns;

verus! {

/// Where one run stands.  `Done` records whether a terminal ping was sent on
/// the way: a run that gives up on the start ping exits without one.
#[derive(Debug, Clone, Copy, PartialEq, Eq, Structural)]
pub enum Phase {
    /// Nothing has happened yet.
    Init,
    /// The start ping is in flight.
    Starting,
    /// The child is being spawned.
    Spawning,
    /// The child runs; the supervisor waits on it.
    Running,
    /// The terminal ping for a report with this code is in flight.
    Reporting { code: i32 },
    /// The run is over: the supervisor exits with `code`.
    Done { code: i32, pinged: bool },
}

/// What the world answered.
#[derive(Debug, PartialEq)]
pub enum SupEvent {
    /// The run begins; a command to supervise may or may not be present.
    Begin { has_command: bool },
    /// The start ping protocol ended, well or badly.
    StartResult { ok: bool },
    /// The spawn either succeeded or failed with this error text.
    SpawnResult { err: Option<Vec<u8>> },
    /// The child ended: what the wait and the two tee readers came to.
    ChildDone { wait: WaitResult, stdout_join: JoinResult, stderr_join: JoinResult },
    /// The terminal ping protocol ended, well or badly.
    TerminalResult { ok: bool },
}

/// What the runner must do next.
pub enum SupAction {
    /// Send the start ping (with the retry policy), then report back.
    SendStart,
    /// Spawn the child, then report back.
    SpawnChild,
    /// Wait for the child and join the readers, then report back.
    AwaitChild,
    /// Send this one terminal report (with the retry policy), then report
    /// back.
    SendTerminal(Report),
    /// The run is over: exit the process with this code.
    Exit(i32),
    /// The event did not belong to the phase; nothing happens.
    Nothing,
}

/// The ghost image of an action: what `step` promises about the one it
/// returns.
pub enum ActionModel {
    SendStart,
    SpawnChild,
    AwaitChild,
    SendTerminal { body: Seq<u8>, code: i32, log: bool },
    Exit(i32),
    Nothing,
}

/// The ghost image of an exec action.
pub open spec fn action_model(a: SupAction) -> ActionModel {
    match a {
        SupAction::SendStart => ActionModel::SendStart,
        SupAction::SpawnChild => ActionModel::SpawnChild,
        SupAction::AwaitChild => ActionModel::AwaitChild,
        SupAction::SendTerminal(r) => ActionModel::SendTerminal {
            body: r.body@,
            code: r.code,
            log: r.log,
        },
        SupAction::Exit(code) => ActionModel::Exit(code),
        SupAction::Nothing => ActionModel::Nothing,
    }
}

/// The transition relation of the protocol.
pub open spec fn spec_step(p: Phase, e: SupEvent, ignore_code: bool) -> (Phase, ActionModel) {
    match (p, e) {
        (Phase::Init, SupEvent::Begin { has_command }) => {
            if has_command {
                (Phase::Starting, ActionModel::SendStart)
            } else {
                (
                    Phase::Reporting { code: 0 },
                    ActionModel::SendTerminal {
                        body: "No command given".spec_bytes(),
                        code: 0,
                        log: true,
                    },
                )
            }
        },
        (Phase::Starting, SupEvent::StartResult { ok }) => {
            if ok {
                (Phase::Spawning, ActionModel::SpawnChild)
            } else {
                (Phase::Done { code: EXIT_HCP_HTTP, pinged: false }, ActionModel::Exit(
                    EXIT_HCP_HTTP,
                ))
            }
        },
        (Phase::Spawning, SupEvent::SpawnResult { err }) => {
            match err {
                Some(m) => {
                    let o = Outcome::SpawnFailed(m);
                    (Phase::Reporting { code: spec_code(o, ignore_code) },
                    ActionModel::SendTerminal {
                        body: spec_body(o, Seq::empty(), Seq::empty()),
                        code: spec_code(o, ignore_code),
                        log: spec_log(o),
                    })
                },
                None => (Phase::Running, ActionModel::AwaitChild),
            }
        },
        (Phase::Running, SupEvent::ChildDone { wait, stdout_join, stderr_join }) => {
            let o = spec_outcome(wait, stdout_join, stderr_join);
            (Phase::Reporting { code: spec_code(o, ignore_code) }, ActionModel::SendTerminal {
                body: spec_body(
                    o,
                    spec_out_tail(stdout_join, stderr_join),
                    spec_err_tail(stdout_join, stderr_join),
                ),
                code: spec_code(o, ignore_code),
                log: spec_log(o),
            })
        },
        (Phase::Reporting { code }, SupEvent::TerminalResult { ok }) => {
            let final_code = if ok {
                code
            } else {
                EXIT_HCP_HTTP
            };
            (Phase::Done { code: final_code, pinged: true }, ActionModel::Exit(final_code))
        },
        (_, _) => (p, ActionModel::Nothing),
    }
}

/// Takes one step of the protocol: from the phase and the event the world
/// answered with, the next phase and the one action to perform.
pub fn step(p: Phase, e: SupEvent, ignore_code: bool) -> (r: (Phase, SupAction))
    ensures
        r.0 == spec_step(p, e, ignore_code).0,
        action_model(r.1) == spec_step(p, e, ignore_code).1,
{
    match (p, e) {
        (Phase::Init, SupEvent::Begin { has_command }) => {
            if has_command {
                (Phase::Starting, SupAction::SendStart)
            } else {
                let report = no_command_report();
                (Phase::Reporting { code: report.code }, SupAction::SendTerminal(report))
            }
        },
        (Phase::Starting, SupEvent::StartResult { ok }) => {
            if ok {
                (Phase::Spawning, SupAction::SpawnChild)
            } else {
                (Phase::Done { code: EXIT_HCP_HTTP, pinged: false }, SupAction::Exit(
                    EXIT_HCP_HTTP,
                ))
            }
        },
        (Phase::Spawning, SupEvent::SpawnResult { err }) => {
            match err {
                Some(m) => {
                    let outcome = Outcome::SpawnFailed(m);
                    let empty: Vec<u8> = Vec::new();
                    let report = compose_report(
                        &outcome,
                        empty.as_slice(),
                        empty.as_slice(),
                        ignore_code,
                    );
                    (Phase::Reporting { code: report.code }, SupAction::SendTerminal(report))
                },
                None => (Phase::Running, SupAction::AwaitChild),
            }
        },
        (Phase::Running, SupEvent::ChildDone { wait, stdout_join, stderr_join }) => {
            let report = plan_after_spawn(&wait, &stdout_join, &stderr_join, ignore_code);
            (Phase::Reporting { code: report.code }, SupAction::SendTerminal(report))
        },
        (Phase::Reporting { code }, SupEvent::TerminalResult { ok }) => {
            let final_code = if ok {
                code
            } else {
                EXIT_HCP_HTTP
            };
            (Phase::Done { code: final_code, pinged: true }, SupAction::Exit(final_code))
        },
        (other, _) => (other, SupAction::Nothing),
    }
}

/// How many terminal pings one action sends.
pub open spec fn terminal_pings(a: ActionModel) -> nat {
    match a {
        ActionModel::SendTerminal { .. } => 1,
        _ => 0,
    }
}

/// How many child spawns one action asks for.
pub open spec fn spawn_count(a: ActionModel) -> nat {
    match a {
        ActionModel::SpawnChild => 1,
        _ => 0,
    }
}

/// Folds a whole run: the final phase, the terminal pings sent and the
/// spawns asked for along the way.
pub open spec fn spec_run(p: Phase, events: Seq<SupEvent>, ignore_code: bool) -> (
    Phase,
    nat,
    nat,
)
    decreases events.len(),
{
    if events.len() == 0 {
        (p, 0, 0)
    } else {
        let (p1, a) = spec_step(p, events[0], ignore_code);
        let rest = spec_run(p1, events.skip(1), ignore_code);
        (rest.0, rest.1 + terminal_pings(a), rest.2 + spawn_count(a))
    }
}

/// Terminal pings already accounted for by a phase.
pub open spec fn phase_pings(p: Phase) -> nat {
    match p {
        Phase::Reporting { .. } => 1,
        Phase::Done { pinged, .. } => if pinged {
            1
        } else {
            0
        },
        _ => 0,
    }
}

/// The phases a run can stand in once its terminal report is owed: from any
/// of them, the run can end only after the one terminal ping.
pub open spec fn past_spawn(p: Phase) -> bool {
    match p {
        Phase::Spawning => true,
        Phase::Running => true,
        Phase::Reporting { .. } => true,
        Phase::Done { pinged, .. } => pinged,
        _ => false,
    }
}

/// One run keeps these books: the pings sent during it are exactly the
/// difference of the phase accounts, the owed-report phases are never left
/// except through the terminal ping, and a spawn leads into them.
proof fn lemma_run_invariant(p: Phase, events: Seq<SupEvent>, ignore_code: bool)
    ensures
        ({
            let (pf, pings, spawns) = spec_run(p, events, ignore_code);
            &&& pings + phase_pings(p) == phase_pings(pf)
            &&& (past_spawn(p) ==> past_spawn(pf))
            &&& (spawns > 0 ==> past_spawn(pf))
        }),
    decreases events.len(),
{
    if events.len() > 0 {
        let (p1, _a) = spec_step(p, events[0], ignore_code);
        lemma_run_invariant(p1, events.skip(1), ignore_code);
    }
}

/// Law: one run of the protocol sends at most one terminal ping; and every
/// run that reached the child spawn and came to its end sent exactly one.
pub proof fn lemma_exactly_one_terminal_ping(events: Seq<SupEvent>, ignore_code: bool)
    ensures
        ({
            let (pf, pings, spawns) = spec_run(Phase::Init, events, ignore_code);
            &&& pings <= 1
            &&& ((spawns > 0 && pf matches Phase::Done { .. }) ==> pings == 1)
        }),
{
    lemma_run_invariant(Phase::Init, events, ignore_code);
}

} // verus!
