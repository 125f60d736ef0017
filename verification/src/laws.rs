//! The laws of the orchestration sequence, stated and proved over the
//! transition function: the order of side effects, the double-run guard,
//! the caching of resolved identities, and the pid-file round trip.

use vstd::prelude::*;

use crate::config::DaemonizeV;
use crate::engine::{
    accepts, awaiting_phase, init_spec, phase_rank, step_spec, stream_source, wf, ActionV,
    EngineV, Event, Phase, StepV, STDERR_FD, STDIN_FD, STDOUT_FD,
};
use crate::error::ErrorKind;
use crate::numfmt::{lemma_decimal_digits, lemma_decimal_round_trip, spec_decimal,
    spec_parse_decimal};

verus! {

/// Whether an action reads or writes the pid file.
pub open spec fn touches_pid_file(a: ActionV) -> bool {
    match a {
        ActionV::OpenPidFile { .. } => true,
        ActionV::GetPidFileFlags { .. } => true,
        ActionV::SetPidFileFlags { .. } => true,
        ActionV::LockPidFile { .. } => true,
        ActionV::ChownPidFile { .. } => true,
        ActionV::TruncatePidFile { .. } => true,
        ActionV::WritePidFile { .. } => true,
        _ => false,
    }
}

/// Whether a step asks for a pid-file operation.
pub open spec fn out_touches_pid_file(s: StepV) -> bool {
    match s {
        StepV::Run(a) => touches_pid_file(a),
        _ => false,
    }
}

/// Whether a step reports the double-run guard: a failed pid-file lock.
pub open spec fn out_is_lock_failure(s: StepV) -> bool {
    s matches StepV::Fail(ErrorKind::LockPidfile(_))
}

/// Whether a step asks for a fork.
pub open spec fn out_is_fork(s: StepV) -> bool {
    s matches StepV::Run(ActionV::ForkProcess { .. })
}

/// Whether an error kind reports a failed identity resolution.
pub open spec fn is_resolution_failure(k: ErrorKind) -> bool {
    ||| k == ErrorKind::UserNotFound
    ||| k == ErrorKind::GroupNotFound
    ||| k == ErrorKind::UserContainsNul
    ||| k == ErrorKind::GroupContainsNul
}

/// Whether a step reports a failed identity resolution.
pub open spec fn out_is_resolution_failure(s: StepV) -> bool {
    match s {
        StepV::Fail(k) => is_resolution_failure(k),
        _ => false,
    }
}

/// Whether an action changes the process's privileges or their traces:
/// the pid file's ownership, the privileged action itself, the root
/// change, the identity drops, and the pid-file write that follows them.
pub open spec fn privilege_action(a: ActionV) -> bool {
    match a {
        ActionV::ChownPidFile { .. } => true,
        ActionV::RunPrivilegedAction => true,
        ActionV::ChangeRoot { .. } => true,
        ActionV::SetGroupId { .. } => true,
        ActionV::SetUserId { .. } => true,
        ActionV::GetProcessId => true,
        ActionV::TruncatePidFile { .. } => true,
        ActionV::WritePidFile { .. } => true,
        _ => false,
    }
}

/// Whether a step asks for a privilege-related action.
pub open spec fn out_is_privilege_action(s: StepV) -> bool {
    match s {
        StepV::Run(a) => privilege_action(a),
        _ => false,
    }
}

/// Every step leaves the configuration untouched and the state
/// well-formed.
pub proof fn lemma_step_preserves_wf(m: EngineV, ev: Event)
    requires
        wf(m),
        accepts(m.phase, ev),
    ensures
        wf(step_spec(m, ev).next),
        step_spec(m, ev).next.cfg == m.cfg,
{
}

/// The initial state of any configuration is well-formed and carries the
/// configuration unchanged.
pub proof fn lemma_init_wf(cfg: DaemonizeV)
    ensures
        wf(init_spec(cfg).next),
        init_spec(cfg).next.cfg == cfg,
{
}

/// The sequence only moves forward: no step returns to an earlier phase,
/// so no action is ever asked for twice.
pub proof fn lemma_phase_monotonic(m: EngineV, ev: Event)
    requires
        wf(m),
        accepts(m.phase, ev),
    ensures
        phase_rank(step_spec(m, ev).next.phase) > phase_rank(m.phase),
{
}

/// Whenever a step asks for an action, the next phase is exactly the
/// phase awaiting that action's outcome: the emitted actions of a run
/// are ordered by their phases.
pub proof fn lemma_run_awaits(m: EngineV, ev: Event)
    requires
        wf(m),
        accepts(m.phase, ev),
    ensures
        match step_spec(m, ev).out {
            StepV::Run(a) => step_spec(m, ev).next.phase == awaiting_phase(a),
            _ => true,
        },
{
}

/// A step that stops the sequence — success or failure — leaves the
/// engine in a terminal phase that accepts no further event.
pub proof fn lemma_stop_is_terminal(m: EngineV, ev: Event)
    requires
        wf(m),
        accepts(m.phase, ev),
    ensures
        match step_spec(m, ev).out {
            StepV::Run(_) => true,
            _ => forall|ev2: Event| !accepts(step_spec(m, ev).next.phase, ev2),
        },
{
}

/// Every phase that is not terminal accepts at least one event: the
/// engine can never be stuck waiting for an outcome no driver could
/// report.
pub proof fn lemma_no_deadlock(p: Phase)
    requires
        !crate::engine::is_terminal(p),
    ensures
        exists|ev: Event| accepts(p, ev),
{
    match p {
        Phase::AwaitPidFileOpen => assert(accepts(p, Event::OpenedFd { fd: 0 })),
        Phase::AwaitPidFileFlagsGet => assert(accepts(p, Event::GotFlags { flags: 0 })),
        Phase::AwaitFirstFork => assert(accepts(p, Event::ForkedChild)),
        Phase::AwaitSecondFork => assert(accepts(p, Event::ForkedChild)),
        Phase::AwaitDevnullOpen => assert(accepts(p, Event::OpenedFd { fd: 0 })),
        Phase::AwaitUserLookup => assert(accepts(p, Event::NoSuchId)),
        Phase::AwaitGroupLookup => assert(accepts(p, Event::NoSuchId)),
        Phase::AwaitProcessId => assert(accepts(p, Event::GotPid { pid: 0 })),
        _ => assert(accepts(p, Event::Succeeded)),
    }
}

/// Law: without a configured pid file no step asks for any pid-file
/// operation — two daemonizations without pid files share no state.
pub proof fn lemma_no_pid_file_no_pid_actions(m: EngineV, ev: Event)
    requires
        wf(m),
        accepts(m.phase, ev),
        m.cfg.pid_file is None,
    ensures
        !out_touches_pid_file(step_spec(m, ev).out),
{
}

/// Law: without a configured pid file the first step is already the
/// first fork, not a pid-file operation.
pub proof fn lemma_init_no_pid_file(cfg: DaemonizeV)
    requires
        cfg.pid_file is None,
    ensures
        init_spec(cfg).out == StepV::Run(ActionV::ForkProcess { first: true }),
{
}

/// Law: a failed pid-file lock stops the sequence at once with
/// `LockPidfile` and the OS error code of the failed lock — the
/// double-run guard fails fast instead of queueing.
pub proof fn lemma_lock_failure_fails_fast(m: EngineV, e: i32)
    requires
        wf(m),
        m.phase == Phase::AwaitPidFileLock,
    ensures
        step_spec(m, Event::Failed { errno: e }).out == StepV::Fail(ErrorKind::LockPidfile(e)),
        step_spec(m, Event::Failed { errno: e }).next.phase == Phase::Failed,
{
}

/// A lock failure is reported only from the phase awaiting the lock.
pub proof fn lemma_lock_failure_phase(m: EngineV, ev: Event)
    requires
        wf(m),
        accepts(m.phase, ev),
    ensures
        out_is_lock_failure(step_spec(m, ev).out) ==> m.phase == Phase::AwaitPidFileLock,
{
}

/// Law: a fork is asked for only once the pid-file lock is held (first
/// fork, right after the lock succeeded; second fork, after the umask) —
/// with a pid file configured, duplicate-instance detection happens
/// before any process splitting.
pub proof fn lemma_fork_only_after_lock(m: EngineV, ev: Event)
    requires
        wf(m),
        accepts(m.phase, ev),
    ensures
        out_is_fork(step_spec(m, ev).out) ==> m.phase == Phase::AwaitPidFileLock || m.phase
            == Phase::AwaitSetUmask,
        step_spec(m, ev).out == StepV::Run(ActionV::ForkProcess { first: true }) ==> m.phase
            == Phase::AwaitPidFileLock && ev == Event::Succeeded,
{
}

/// Law: resolved identities are cached — an id, once stored, never
/// changes, and both the pid-file ownership change and the privilege
/// drops carry exactly the stored ids. Chown and drop therefore use the
/// same identities even though the name service is not idempotent.
pub proof fn lemma_identities_cached(m: EngineV, ev: Event)
    requires
        wf(m),
        accepts(m.phase, ev),
    ensures
        m.uid is Some ==> step_spec(m, ev).next.uid == m.uid,
        m.gid is Some ==> step_spec(m, ev).next.gid == m.gid,
        match step_spec(m, ev).out {
            StepV::Run(a) => match a {
                ActionV::ChownPidFile { uid, gid, .. } => uid == crate::engine::id_or_unchanged(
                    step_spec(m, ev).next.uid,
                ) && gid == crate::engine::id_or_unchanged(step_spec(m, ev).next.gid),
                ActionV::SetUserId { uid } => step_spec(m, ev).next.uid == Some(uid),
                ActionV::SetGroupId { gid } => step_spec(m, ev).next.gid == Some(gid),
                _ => true,
            },
            _ => true,
        },
{
}

/// Law: a resolution failure is reported only from the resolution
/// phases, which precede every privilege-related phase; together with
/// forward-only movement, `UserNotFound` and the other resolution errors
/// come back before any privilege-related action was ever asked for.
pub proof fn lemma_resolution_failure_phase(m: EngineV, ev: Event)
    requires
        wf(m),
        accepts(m.phase, ev),
    ensures
        out_is_resolution_failure(step_spec(m, ev).out) ==> phase_rank(Phase::AwaitDevnullClose)
            <= phase_rank(m.phase) <= phase_rank(Phase::AwaitGroupLookup),
        out_is_privilege_action(step_spec(m, ev).out) ==> phase_rank(
            step_spec(m, ev).next.phase,
        ) > phase_rank(Phase::AwaitGroupLookup),
{
}

/// Law: the directory-change request carries exactly the configured
/// working directory, and is issued in the child of the first fork.
pub proof fn lemma_working_directory(m: EngineV)
    requires
        wf(m),
        m.phase == Phase::AwaitFirstFork,
    ensures
        step_spec(m, Event::ForkedChild).out == StepV::Run(
            ActionV::ChangeDirectory { path: m.cfg.directory },
        ),
{
}

/// Law: the umask request carries exactly the configured mask, and is
/// issued right after the session was created.
pub proof fn lemma_umask_applied(m: EngineV)
    requires
        wf(m),
        m.phase == Phase::AwaitCreateSession,
    ensures
        step_spec(m, Event::Succeeded).out == StepV::Run(
            ActionV::SetUmask { mask: m.cfg.umask },
        ),
{
}

/// Law: the three standard slots are redirected in the fixed order
/// stdin, stdout, stderr, each from the configured source — the null
/// device for a discarded stream, the caller's descriptor for a
/// redirected one.
pub proof fn lemma_stream_redirection(m: EngineV, fd: i32)
    requires
        wf(m),
    ensures
        m.phase == Phase::AwaitDevnullOpen ==> step_spec(m, Event::OpenedFd { fd }).out
            == StepV::Run(
            ActionV::RedirectStream {
                source: stream_source(m.cfg.stdin, fd),
                target: STDIN_FD,
            },
        ),
        m.phase == Phase::AwaitStdinRedirect ==> step_spec(m, Event::Succeeded).out == StepV::Run(
            ActionV::RedirectStream {
                source: stream_source(m.cfg.stdout, crate::engine::devnull_of(m)),
                target: STDOUT_FD,
            },
        ),
        m.phase == Phase::AwaitStdoutRedirect ==> step_spec(m, Event::Succeeded).out
            == StepV::Run(
            ActionV::RedirectStream {
                source: stream_source(m.cfg.stderr, crate::engine::devnull_of(m)),
                target: STDERR_FD,
            },
        ),
{
}

/// Law: the pid-file write carries exactly the decimal rendering of the
/// pid reported by the process that persists, and parsing that text
/// yields that pid back — the pid-file round trip.
pub proof fn lemma_pid_write_round_trip(m: EngineV, pid: i32)
    requires
        wf(m),
        m.phase == Phase::AwaitProcessId,
        pid >= 0,
    ensures
        ({
            let after_pid = step_spec(m, Event::GotPid { pid }).next;
            let write_out = step_spec(after_pid, Event::Succeeded).out;
            &&& write_out matches StepV::Run(ActionV::WritePidFile { text, .. })
            &&& (match write_out {
                StepV::Run(ActionV::WritePidFile { text, .. }) => {
                    &&& text == spec_decimal(pid as nat)
                    &&& spec_parse_decimal(text) == pid
                    &&& text.len() > 0
                },
                _ => false,
            })
        }),
{
    lemma_decimal_round_trip(pid as nat);
    lemma_decimal_digits(pid as nat);
}

/// The steps an engine takes from state `m` under a sequence of events,
/// in order.
pub open spec fn run_outs(m: EngineV, evs: Seq<Event>) -> Seq<StepV>
    decreases evs.len(),
{
    if evs.len() == 0 {
        Seq::empty()
    } else {
        seq![step_spec(m, evs[0]).out] + run_outs(step_spec(m, evs[0]).next, evs.drop_first())
    }
}

/// Whether a sequence of events is admissible from `m`: each event is
/// one the phase it meets accepts.
pub open spec fn admissible(m: EngineV, evs: Seq<Event>) -> bool
    decreases evs.len(),
{
    evs.len() == 0 || (accepts(m.phase, evs[0]) && admissible(
        step_spec(m, evs[0]).next,
        evs.drop_first(),
    ))
}

/// Law: without a configured pid file, no step of any admissible run
/// asks for a pid-file operation — two daemonizations without pid files
/// share no state at any point.
pub proof fn lemma_run_without_pid_file(m: EngineV, evs: Seq<Event>)
    requires
        wf(m),
        admissible(m, evs),
        m.cfg.pid_file is None,
    ensures
        forall|i: int| 0 <= i < run_outs(m, evs).len() ==> !out_touches_pid_file(
            #[trigger] run_outs(m, evs)[i],
        ),
    decreases evs.len(),
{
    if evs.len() > 0 {
        let t = step_spec(m, evs[0]);
        lemma_no_pid_file_no_pid_actions(m, evs[0]);
        lemma_step_preserves_wf(m, evs[0]);
        lemma_run_without_pid_file(t.next, evs.drop_first());
        assert forall|i: int| 0 <= i < run_outs(m, evs).len() implies !out_touches_pid_file(
            run_outs(m, evs)[i],
        ) by {
            if i == 0 {
                assert(run_outs(m, evs)[0] == t.out);
            } else {
                assert(run_outs(m, evs)[i] == run_outs(t.next, evs.drop_first())[i - 1]);
            }
        }
    }
}

/// Once the sequence is past the lock phase it never reports a lock
/// failure again.
proof fn lemma_no_lock_failure_past_lock(m: EngineV, evs: Seq<Event>)
    requires
        wf(m),
        admissible(m, evs),
        phase_rank(m.phase) > phase_rank(Phase::AwaitPidFileLock),
    ensures
        forall|i: int| 0 <= i < run_outs(m, evs).len() ==> !out_is_lock_failure(
            #[trigger] run_outs(m, evs)[i],
        ),
    decreases evs.len(),
{
    if evs.len() > 0 {
        let t = step_spec(m, evs[0]);
        lemma_lock_failure_phase(m, evs[0]);
        lemma_phase_monotonic(m, evs[0]);
        lemma_step_preserves_wf(m, evs[0]);
        lemma_no_lock_failure_past_lock(t.next, evs.drop_first());
        assert forall|i: int| 0 <= i < run_outs(m, evs).len() implies !out_is_lock_failure(
            run_outs(m, evs)[i],
        ) by {
            if i == 0 {
                assert(run_outs(m, evs)[0] == t.out);
            } else {
                assert(run_outs(m, evs)[i] == run_outs(t.next, evs.drop_first())[i - 1]);
            }
        }
    }
}

/// Law: in one admissible run a failed pid-file lock and a fork never
/// both occur — when a second instance is refused, no process was split
/// off, and once a fork happened the lock can no longer fail.
pub proof fn lemma_lock_failure_excludes_fork(m: EngineV, evs: Seq<Event>)
    requires
        wf(m),
        admissible(m, evs),
    ensures
        forall|i: int, j: int|
            0 <= i < run_outs(m, evs).len() && 0 <= j < run_outs(m, evs).len() ==> !(
            out_is_lock_failure(#[trigger] run_outs(m, evs)[i]) && out_is_fork(
                #[trigger] run_outs(m, evs)[j],
            )),
    decreases evs.len(),
{
    if evs.len() > 0 {
        let t = step_spec(m, evs[0]);
        let rest = evs.drop_first();
        lemma_step_preserves_wf(m, evs[0]);
        lemma_phase_monotonic(m, evs[0]);
        lemma_lock_failure_phase(m, evs[0]);
        lemma_fork_only_after_lock(m, evs[0]);
        lemma_stop_is_terminal(m, evs[0]);
        if out_is_lock_failure(t.out) {
            // The guard fired: the engine is terminal, so the run holds
            // this single step and no fork.
            if rest.len() > 0 {
                assert(admissible(t.next, rest));
                assert(accepts(t.next.phase, rest[0]));
                assert(false);
            }
            assert(run_outs(t.next, rest).len() == 0);
            assert(run_outs(m, evs) =~= seq![t.out]);
            assert(!out_is_fork(run_outs(m, evs)[0]));
        } else if out_is_fork(t.out) {
            // A fork happened: the lock phase lies behind, so no lock
            // failure can follow, and the first step is no lock failure.
            assert(phase_rank(t.next.phase) > phase_rank(Phase::AwaitPidFileLock));
            lemma_no_lock_failure_past_lock(t.next, rest);
            assert forall|i: int| 0 <= i < run_outs(m, evs).len() implies !out_is_lock_failure(
                run_outs(m, evs)[i],
            ) by {
                if i == 0 {
                    assert(run_outs(m, evs)[0] == t.out);
                } else {
                    assert(run_outs(m, evs)[i] == run_outs(t.next, rest)[i - 1]);
                }
            }
        } else {
            lemma_lock_failure_excludes_fork(t.next, rest);
            assert forall|i: int, j: int|
                0 <= i < run_outs(m, evs).len() && 0 <= j < run_outs(m, evs).len() implies !(
            out_is_lock_failure(run_outs(m, evs)[i]) && out_is_fork(run_outs(m, evs)[j])) by {
                if i > 0 && j > 0 {
                    assert(run_outs(m, evs)[i] == run_outs(t.next, rest)[i - 1]);
                    assert(run_outs(m, evs)[j] == run_outs(t.next, rest)[j - 1]);
                } else if i == 0 {
                    assert(run_outs(m, evs)[0] == t.out);
                } else {
                    assert(run_outs(m, evs)[j] == t.out);
                }
            }
        }
    }
}

/// Law: in one admissible run a failed pid-file lock excludes every
/// privilege-related action — in particular the pid file is never
/// truncated or written by the refused instance, so it still holds the
/// pid of the daemon that owns the lock.
pub proof fn lemma_lock_failure_excludes_privilege(m: EngineV, evs: Seq<Event>)
    requires
        wf(m),
        admissible(m, evs),
    ensures
        forall|i: int, j: int|
            0 <= i < run_outs(m, evs).len() && 0 <= j < run_outs(m, evs).len() ==> !(
            out_is_lock_failure(#[trigger] run_outs(m, evs)[i]) && out_is_privilege_action(
                #[trigger] run_outs(m, evs)[j],
            )),
    decreases evs.len(),
{
    if evs.len() > 0 {
        let t = step_spec(m, evs[0]);
        let rest = evs.drop_first();
        lemma_step_preserves_wf(m, evs[0]);
        lemma_phase_monotonic(m, evs[0]);
        lemma_lock_failure_phase(m, evs[0]);
        lemma_resolution_failure_phase(m, evs[0]);
        lemma_stop_is_terminal(m, evs[0]);
        if out_is_lock_failure(t.out) {
            if rest.len() > 0 {
                assert(admissible(t.next, rest));
                assert(accepts(t.next.phase, rest[0]));
                assert(false);
            }
            assert(run_outs(t.next, rest).len() == 0);
            assert(run_outs(m, evs) =~= seq![t.out]);
            assert(!out_is_privilege_action(run_outs(m, evs)[0]));
        } else if out_is_privilege_action(t.out) {
            assert(phase_rank(t.next.phase) > phase_rank(Phase::AwaitPidFileLock));
            lemma_no_lock_failure_past_lock(t.next, rest);
            assert forall|i: int| 0 <= i < run_outs(m, evs).len() implies !out_is_lock_failure(
                run_outs(m, evs)[i],
            ) by {
                if i == 0 {
                    assert(run_outs(m, evs)[0] == t.out);
                } else {
                    assert(run_outs(m, evs)[i] == run_outs(t.next, rest)[i - 1]);
                }
            }
        } else {
            lemma_lock_failure_excludes_privilege(t.next, rest);
            assert forall|i: int, j: int|
                0 <= i < run_outs(m, evs).len() && 0 <= j < run_outs(m, evs).len() implies !(
            out_is_lock_failure(run_outs(m, evs)[i]) && out_is_privilege_action(
                run_outs(m, evs)[j],
            )) by {
                if i > 0 && j > 0 {
                    assert(run_outs(m, evs)[i] == run_outs(t.next, rest)[i - 1]);
                    assert(run_outs(m, evs)[j] == run_outs(t.next, rest)[j - 1]);
                } else if i == 0 {
                    assert(run_outs(m, evs)[0] == t.out);
                } else {
                    assert(run_outs(m, evs)[j] == t.out);
                }
            }
        }
    }
}

/// Law: the whole of it from the builder's entry — for a configuration
/// without a pid file, neither the first step nor any step of any
/// admissible run touches a pid file.
pub proof fn lemma_daemonize_run_without_pid_file(cfg: DaemonizeV, evs: Seq<Event>)
    requires
        cfg.pid_file is None,
        admissible(init_spec(cfg).next, evs),
    ensures
        !out_touches_pid_file(init_spec(cfg).out),
        forall|i: int|
            0 <= i < run_outs(init_spec(cfg).next, evs).len() ==> !out_touches_pid_file(
                #[trigger] run_outs(init_spec(cfg).next, evs)[i],
            ),
{
    lemma_init_wf(cfg);
    lemma_init_no_pid_file(cfg);
    lemma_run_without_pid_file(init_spec(cfg).next, evs);
}

/// Once the sequence is past the resolution phases it never reports a
/// resolution failure again.
proof fn lemma_no_resolution_failure_past_resolution(m: EngineV, evs: Seq<Event>)
    requires
        wf(m),
        admissible(m, evs),
        phase_rank(m.phase) > phase_rank(Phase::AwaitGroupLookup),
    ensures
        forall|i: int| 0 <= i < run_outs(m, evs).len() ==> !out_is_resolution_failure(
            #[trigger] run_outs(m, evs)[i],
        ),
    decreases evs.len(),
{
    if evs.len() > 0 {
        let t = step_spec(m, evs[0]);
        lemma_resolution_failure_phase(m, evs[0]);
        lemma_phase_monotonic(m, evs[0]);
        lemma_step_preserves_wf(m, evs[0]);
        lemma_no_resolution_failure_past_resolution(t.next, evs.drop_first());
        assert forall|i: int| 0 <= i < run_outs(m, evs).len() implies !out_is_resolution_failure(
            run_outs(m, evs)[i],
        ) by {
            if i == 0 {
                assert(run_outs(m, evs)[0] == t.out);
            } else {
                assert(run_outs(m, evs)[i] == run_outs(t.next, evs.drop_first())[i - 1]);
            }
        }
    }
}

/// Law: in one admissible run a resolution failure and a
/// privilege-related action never both occur — an unknown user or group
/// name is reported before the pid-file ownership change, the privileged
/// action, the root change, the identity drops and the pid-file write,
/// and once any of those was asked for, resolution can no longer fail.
pub proof fn lemma_resolution_failure_excludes_privilege(m: EngineV, evs: Seq<Event>)
    requires
        wf(m),
        admissible(m, evs),
    ensures
        forall|i: int, j: int|
            0 <= i < run_outs(m, evs).len() && 0 <= j < run_outs(m, evs).len() ==> !(
            out_is_resolution_failure(#[trigger] run_outs(m, evs)[i]) && out_is_privilege_action(
                #[trigger] run_outs(m, evs)[j],
            )),
    decreases evs.len(),
{
    if evs.len() > 0 {
        let t = step_spec(m, evs[0]);
        let rest = evs.drop_first();
        lemma_step_preserves_wf(m, evs[0]);
        lemma_phase_monotonic(m, evs[0]);
        lemma_resolution_failure_phase(m, evs[0]);
        lemma_run_awaits(m, evs[0]);
        lemma_stop_is_terminal(m, evs[0]);
        if out_is_resolution_failure(t.out) {
            // The failure is terminal: the run holds this single step.
            if rest.len() > 0 {
                assert(admissible(t.next, rest));
                assert(accepts(t.next.phase, rest[0]));
                assert(false);
            }
            assert(run_outs(t.next, rest).len() == 0);
            assert(run_outs(m, evs) =~= seq![t.out]);
            assert(!out_is_privilege_action(run_outs(m, evs)[0]));
        } else if out_is_privilege_action(t.out) {
            assert(phase_rank(t.next.phase) > phase_rank(Phase::AwaitGroupLookup));
            lemma_no_resolution_failure_past_resolution(t.next, rest);
            assert forall|i: int| 0 <= i < run_outs(m, evs).len()
                implies !out_is_resolution_failure(run_outs(m, evs)[i]) by {
                if i == 0 {
                    assert(run_outs(m, evs)[0] == t.out);
                } else {
                    assert(run_outs(m, evs)[i] == run_outs(t.next, rest)[i - 1]);
                }
            }
        } else {
            lemma_resolution_failure_excludes_privilege(t.next, rest);
            assert forall|i: int, j: int|
                0 <= i < run_outs(m, evs).len() && 0 <= j < run_outs(m, evs).len() implies !(
            out_is_resolution_failure(run_outs(m, evs)[i]) && out_is_privilege_action(
                run_outs(m, evs)[j],
            )) by {
                if i > 0 && j > 0 {
                    assert(run_outs(m, evs)[i] == run_outs(t.next, rest)[i - 1]);
                    assert(run_outs(m, evs)[j] == run_outs(t.next, rest)[j - 1]);
                } else if i == 0 {
                    assert(run_outs(m, evs)[0] == t.out);
                } else {
                    assert(run_outs(m, evs)[j] == t.out);
                }
            }
        }
    }
}

} // verus!
