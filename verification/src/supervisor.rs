//! The process supervisor's decisions. The first child of the bootstrap is
//! PID 1 of the new PID namespace; after assembling the filesystem it forks
//! the target command and then acts as a makeshift init: it reaps every
//! descendant the kernel reparents onto it, watches for the one child it
//! forked itself, and propagates that child's exit code outward. The outer
//! process performs the symmetric wait for PID 1 itself. Both loops are pure
//! decision functions here; the surrounding binary performs the blocking
//! waits and feeds each observed status back in.

use vstd::prelude::*;

verus! {

/// The exit code reported when the target command cannot be executed at all
/// (missing binary, not executable): a caller-input problem, reported
/// distinctly from internal setup faults.
pub const EXEC_FAILURE_EXIT_CODE: i32 = 1;

/// One observed child status, as the blocking wait reports it: a clean exit
/// with a code, a termination by signal, or any other status shape.
#[derive(Clone, Copy, Debug, PartialEq, Eq, Structural)]
pub enum WaitEvent {
    Exited { pid: i32, code: i32 },
    Signaled { pid: i32, signal: i32 },
    Other { pid: i32 },
}

/// What the reaping init does with one observed status: keep reaping, or
/// terminate with `code` (warning first when the code is non-zero).
#[derive(Clone, Copy, Debug, PartialEq, Eq, Structural)]
pub enum ReapDecision {
    ContinueReaping,
    ExitWith { code: i32, warn: bool },
}

/// What the outer process does with the status of the sandbox initializer it
/// waited for: propagate a clean exit's code as the tool's own exit code, or
/// treat any other status shape as an unrecoverable internal-invariant
/// violation.
#[derive(Clone, Copy, Debug, PartialEq, Eq, Structural)]
pub enum OuterDecision {
    Propagate { code: i32 },
    InternalFault,
}

/// Whether `ev` is the clean exit of the one child the supervisor tracks.
pub open spec fn is_watched_exit(watched: i32, ev: WaitEvent) -> bool {
    ev matches WaitEvent::Exited { pid, .. } && pid == watched
}

/// The reaping init's decision on one observed status: adopt the tracked
/// child's exit code when it exits cleanly, and silently discard every other
/// reaped status, continuing the loop.
pub open spec fn reap_decision(watched: i32, ev: WaitEvent) -> ReapDecision {
    match ev {
        WaitEvent::Exited { pid, code } => if pid == watched {
            ReapDecision::ExitWith { code, warn: code != 0 }
        } else {
            ReapDecision::ContinueReaping
        },
        _ => ReapDecision::ContinueReaping,
    }
}

/// One step of the reap loop: the supervisor, as PID 1 of the namespace, has
/// observed `ev` for some descendant and decides whether to keep reaping or
/// to terminate with the tracked child's code.
pub fn reap_step(watched: i32, ev: WaitEvent) -> (d: ReapDecision)
    ensures
        d == reap_decision(watched, ev),
{
    match ev {
        WaitEvent::Exited { pid, code } => {
            if pid == watched {
                ReapDecision::ExitWith { code, warn: code != 0 }
            } else {
                ReapDecision::ContinueReaping
            }
        },
        _ => ReapDecision::ContinueReaping,
    }
}

/// The outer waiter's decision on the initializer's observed status.
pub open spec fn outer_decision(ev: WaitEvent) -> OuterDecision {
    match ev {
        WaitEvent::Exited { code, .. } => OuterDecision::Propagate { code },
        _ => OuterDecision::InternalFault,
    }
}

/// The outer process's single wait step: a clean exit of the initializer
/// propagates its code verbatim; any other status shape is an internal fault.
pub fn outer_wait_step(ev: WaitEvent) -> (d: OuterDecision)
    ensures
        d == outer_decision(ev),
{
    match ev {
        WaitEvent::Exited { pid: _, code } => OuterDecision::Propagate { code },
        _ => OuterDecision::InternalFault,
    }
}

/// A target command that exits cleanly with some code has that code, and no
/// other, carried through both reaping hops: the supervisor adopts the
/// tracked child's code the moment it observes the exit, and the outer waiter
/// adopts the supervisor's code in turn; the accompanying diagnostic is
/// emitted exactly when the code is non-zero.
pub proof fn lemma_exit_code_propagated(watched: i32, init_pid: i32, code: i32)
    ensures
        reap_decision(watched, WaitEvent::Exited { pid: watched, code }) == (ReapDecision::ExitWith {
            code,
            warn: code != 0,
        }),
        outer_decision(WaitEvent::Exited { pid: init_pid, code }) == (OuterDecision::Propagate {
            code,
        }),
{
}

/// The supervisor never stops reaping early and never stops late: its
/// decision is to continue exactly as long as the observed status is not the
/// tracked child's clean exit. Every orphan reparented onto PID 1 is
/// therefore collected, and none remains a zombie when the loop ends. (A
/// tracked child killed by a signal is never matched: the loop keeps waiting,
/// which reproduces the supervisor's deliberate, known gap.)
pub proof fn lemma_reaps_everything_until_watched_exit(watched: i32, ev: WaitEvent)
    ensures
        reap_decision(watched, ev) is ContinueReaping <==> !is_watched_exit(watched, ev),
{
}

} // verus!
