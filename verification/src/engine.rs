//! The orchestration engine: the decision core of daemonization.
//!
//! Turning a process into a daemon is a fixed sequence of OS side effects
//! whose correctness lies almost entirely in their order: the pid file is
//! locked before the first fork, streams are redirected after the second
//! fork, the privileged action runs before the root change, the root
//! change before the privilege drop, and the pid is written only after
//! the drop succeeded. The engine fixes that order as a verified state
//! machine: it emits one [`Action`] at a time — a request for a single
//! syscall — and consumes the [`Event`] describing that syscall's
//! outcome, until it either finishes or maps the first failure to its
//! [`ErrorKind`]. An unverified driver performs the actions; every
//! decision, every value carried by an action, and the failure mapping
//! are fixed here by the transition function [`step_spec`].

use vstd::prelude::*;

use crate::config::{
    contains_nul, has_nul, Daemonize, DaemonizeV, GroupImpl, GroupV, StdioTarget, UserImpl, UserV,
};
use crate::error::ErrorKind;
use crate::numfmt::{format_u64, spec_decimal};

verus! {

/// The id value that the pid-file ownership change passes for a side
/// (user or group) that was not configured: the OS reads it as "leave
/// this side unchanged".
pub const UNCHANGED_ID: u32 = u32::MAX;

/// The close-on-exec bit of a descriptor's flag word, set on the pid
/// file's descriptor so that it does not leak into processes the daemon
/// spawns.
pub const CLOSE_ON_EXEC_FLAG: i32 = 1;

/// The descriptor numbers of the three standard streams.
pub const STDIN_FD: i32 = 0;

pub const STDOUT_FD: i32 = 1;

pub const STDERR_FD: i32 = 2;

/// Where the engine stands in the fixed daemonization sequence. Each
/// `Await` phase means the matching action has been handed out and its
/// outcome has not come back yet.
#[derive(Clone, Copy, Debug, PartialEq, Eq, Structural)]
pub enum Phase {
    AwaitPidFileOpen,
    AwaitPidFileFlagsGet,
    AwaitPidFileFlagsSet,
    AwaitPidFileLock,
    AwaitFirstFork,
    AwaitChangeDirectory,
    AwaitCreateSession,
    AwaitSetUmask,
    AwaitSecondFork,
    AwaitDevnullOpen,
    AwaitStdinRedirect,
    AwaitStdoutRedirect,
    AwaitStderrRedirect,
    AwaitDevnullClose,
    AwaitUserLookup,
    AwaitGroupLookup,
    AwaitChownPidFile,
    AwaitPrivilegedAction,
    AwaitChangeRoot,
    AwaitSetGroup,
    AwaitSetUser,
    AwaitProcessId,
    AwaitPidFileTruncate,
    AwaitPidFileWrite,
    Finished,
    Failed,
}

/// The outcome of one performed action, reported back to the engine.
#[derive(Clone, Copy, Debug, PartialEq, Eq, Structural)]
pub enum Event {
    /// The action succeeded and carries no value.
    Succeeded,
    /// The action failed; the OS error code captured right after it.
    Failed { errno: i32 },
    /// An open succeeded and produced this descriptor.
    OpenedFd { fd: i32 },
    /// Reading the descriptor flags succeeded and produced this word.
    GotFlags { flags: i32 },
    /// A fork succeeded and this is the child process. The parent never
    /// reports back: it terminates, as the sequence demands.
    ForkedChild,
    /// The process id of the process that asked.
    GotPid { pid: i32 },
    /// A name lookup found this id.
    FoundId { id: u32 },
    /// A name lookup found nothing.
    NoSuchId,
}

/// One OS side effect the driver must perform next. Every value the
/// syscall needs is carried in the action.
#[derive(Clone, Debug, PartialEq, Eq)]
pub enum Action {
    /// Open (creating if needed) the pid file for writing.
    OpenPidFile { path: String },
    /// Read the descriptor flags of the pid file.
    GetPidFileFlags { fd: i32 },
    /// Write the descriptor flags of the pid file.
    SetPidFileFlags { fd: i32, flags: i32 },
    /// Take the exclusive, non-blocking advisory lock on the pid file.
    LockPidFile { fd: i32 },
    /// Fork. The child reports `ForkedChild`; the parent of the first
    /// fork runs the exit action and terminates with status 0, the
    /// parent of the second terminates with status 0 at once.
    ForkProcess { first: bool },
    /// Change the working directory.
    ChangeDirectory { path: String },
    /// Create a new session, detaching from the controlling terminal.
    CreateSession,
    /// Apply the configured umask. Cannot fail.
    SetUmask { mask: u32 },
    /// Open the null device read/write.
    OpenDevnull,
    /// Duplicate the descriptor `source` onto the standard slot `target`.
    RedirectStream { source: i32, target: i32 },
    /// Close the null-device descriptor, all three slots being set.
    CloseDevnull { fd: i32 },
    /// Resolve a user name through the system user database.
    LookupUser { name: String },
    /// Resolve a group name through the system group database.
    LookupGroup { name: String },
    /// Change the pid file's ownership to the resolved identities.
    ChownPidFile { path: String, uid: u32, gid: u32 },
    /// Run the caller's one-shot privileged action.
    RunPrivilegedAction,
    /// Change the root directory.
    ChangeRoot { path: String },
    /// Drop group privileges to the resolved group id.
    SetGroupId { gid: u32 },
    /// Drop user privileges to the resolved user id.
    SetUserId { uid: u32 },
    /// Report the pid of the asking process. Cannot fail.
    GetProcessId,
    /// Truncate the pid file to zero length.
    TruncatePidFile { fd: i32 },
    /// Write `text` — the decimal pid, no trailing newline — to the pid
    /// file; a short write counts as failure.
    WritePidFile { fd: i32, text: String },
}

/// The mathematical value of an action.
#[verifier::ext_equal]
pub enum ActionV {
    OpenPidFile { path: Seq<char> },
    GetPidFileFlags { fd: i32 },
    SetPidFileFlags { fd: i32, flags: i32 },
    LockPidFile { fd: i32 },
    ForkProcess { first: bool },
    ChangeDirectory { path: Seq<char> },
    CreateSession,
    SetUmask { mask: u32 },
    OpenDevnull,
    RedirectStream { source: i32, target: i32 },
    CloseDevnull { fd: i32 },
    LookupUser { name: Seq<char> },
    LookupGroup { name: Seq<char> },
    ChownPidFile { path: Seq<char>, uid: u32, gid: u32 },
    RunPrivilegedAction,
    ChangeRoot { path: Seq<char> },
    SetGroupId { gid: u32 },
    SetUserId { uid: u32 },
    GetProcessId,
    TruncatePidFile { fd: i32 },
    WritePidFile { fd: i32, text: Seq<char> },
}

impl View for Action {
    type V = ActionV;

    open spec fn view(&self) -> ActionV {
        match self {
            Action::OpenPidFile { path } => ActionV::OpenPidFile { path: path@ },
            Action::GetPidFileFlags { fd } => ActionV::GetPidFileFlags { fd: *fd },
            Action::SetPidFileFlags { fd, flags } => ActionV::SetPidFileFlags {
                fd: *fd,
                flags: *flags,
            },
            Action::LockPidFile { fd } => ActionV::LockPidFile { fd: *fd },
            Action::ForkProcess { first } => ActionV::ForkProcess { first: *first },
            Action::ChangeDirectory { path } => ActionV::ChangeDirectory { path: path@ },
            Action::CreateSession => ActionV::CreateSession,
            Action::SetUmask { mask } => ActionV::SetUmask { mask: *mask },
            Action::OpenDevnull => ActionV::OpenDevnull,
            Action::RedirectStream { source, target } => ActionV::RedirectStream {
                source: *source,
                target: *target,
            },
            Action::CloseDevnull { fd } => ActionV::CloseDevnull { fd: *fd },
            Action::LookupUser { name } => ActionV::LookupUser { name: name@ },
            Action::LookupGroup { name } => ActionV::LookupGroup { name: name@ },
            Action::ChownPidFile { path, uid, gid } => ActionV::ChownPidFile {
                path: path@,
                uid: *uid,
                gid: *gid,
            },
            Action::RunPrivilegedAction => ActionV::RunPrivilegedAction,
            Action::ChangeRoot { path } => ActionV::ChangeRoot { path: path@ },
            Action::SetGroupId { gid } => ActionV::SetGroupId { gid: *gid },
            Action::SetUserId { uid } => ActionV::SetUserId { uid: *uid },
            Action::GetProcessId => ActionV::GetProcessId,
            Action::TruncatePidFile { fd } => ActionV::TruncatePidFile { fd: *fd },
            Action::WritePidFile { fd, text } => ActionV::WritePidFile {
                fd: *fd,
                text: text@,
            },
        }
    }
}

/// What the engine asks for after consuming an event: perform an action,
/// or stop — successfully, or with the error the sequence maps the
/// failure to.
#[derive(Clone, Debug, PartialEq, Eq)]
pub enum Step {
    /// Perform this action and report its outcome.
    Run(Action),
    /// Daemonization is complete; the privileged action's result is the
    /// caller's result.
    Done,
    /// Daemonization failed with this error; nothing more runs.
    Fail(ErrorKind),
}

/// The mathematical value of a step.
#[verifier::ext_equal]
pub enum StepV {
    Run(ActionV),
    Done,
    Fail(ErrorKind),
}

impl View for Step {
    type V = StepV;

    open spec fn view(&self) -> StepV {
        match self {
            Step::Run(a) => StepV::Run(a@),
            Step::Done => StepV::Done,
            Step::Fail(k) => StepV::Fail(*k),
        }
    }
}

/// The mathematical state of the engine: the options, the phase, and the
/// values accumulated so far.
#[verifier::ext_equal]
pub struct EngineV {
    pub cfg: DaemonizeV,
    pub phase: Phase,
    pub pid_fd: Option<i32>,
    pub devnull_fd: Option<i32>,
    pub uid: Option<u32>,
    pub gid: Option<u32>,
    pub pid_val: Option<i32>,
}

/// One transition of the engine: the state after, and what it asks for.
#[verifier::ext_equal]
pub struct TransitionV {
    pub next: EngineV,
    pub out: StepV,
}

/// The orchestration engine. Built from a [`Daemonize`] configuration by
/// [`Daemonize::start`]; driven by [`Engine::step`].
pub struct Engine {
    cfg: Daemonize,
    phase: Phase,
    pid_fd: Option<i32>,
    devnull_fd: Option<i32>,
    uid: Option<u32>,
    gid: Option<u32>,
    pid_val: Option<i32>,
}

impl View for Engine {
    type V = EngineV;

    closed spec fn view(&self) -> EngineV {
        EngineV {
            cfg: self.cfg@,
            phase: self.phase,
            pid_fd: self.pid_fd,
            devnull_fd: self.devnull_fd,
            uid: self.uid,
            gid: self.gid,
            pid_val: self.pid_val,
        }
    }
}

/// The position of a phase in the fixed sequence. Transitions only move
/// forward: a later phase never hands out an action belonging to an
/// earlier one.
pub open spec fn phase_rank(p: Phase) -> int {
    match p {
        Phase::AwaitPidFileOpen => 0,
        Phase::AwaitPidFileFlagsGet => 1,
        Phase::AwaitPidFileFlagsSet => 2,
        Phase::AwaitPidFileLock => 3,
        Phase::AwaitFirstFork => 4,
        Phase::AwaitChangeDirectory => 5,
        Phase::AwaitCreateSession => 6,
        Phase::AwaitSetUmask => 7,
        Phase::AwaitSecondFork => 8,
        Phase::AwaitDevnullOpen => 9,
        Phase::AwaitStdinRedirect => 10,
        Phase::AwaitStdoutRedirect => 11,
        Phase::AwaitStderrRedirect => 12,
        Phase::AwaitDevnullClose => 13,
        Phase::AwaitUserLookup => 14,
        Phase::AwaitGroupLookup => 15,
        Phase::AwaitChownPidFile => 16,
        Phase::AwaitPrivilegedAction => 17,
        Phase::AwaitChangeRoot => 18,
        Phase::AwaitSetGroup => 19,
        Phase::AwaitSetUser => 20,
        Phase::AwaitProcessId => 21,
        Phase::AwaitPidFileTruncate => 22,
        Phase::AwaitPidFileWrite => 23,
        Phase::Finished => 24,
        Phase::Failed => 25,
    }
}

/// Whether a phase is terminal: no action is outstanding and no event is
/// accepted any more.
pub open spec fn is_terminal(p: Phase) -> bool {
    p == Phase::Finished || p == Phase::Failed
}

/// The phase that awaits a given action's outcome. Every transition that
/// hands out an action moves into this phase, so the order of the phases
/// is the order of the performed side effects.
pub open spec fn awaiting_phase(a: ActionV) -> Phase {
    match a {
        ActionV::OpenPidFile { .. } => Phase::AwaitPidFileOpen,
        ActionV::GetPidFileFlags { .. } => Phase::AwaitPidFileFlagsGet,
        ActionV::SetPidFileFlags { .. } => Phase::AwaitPidFileFlagsSet,
        ActionV::LockPidFile { .. } => Phase::AwaitPidFileLock,
        ActionV::ForkProcess { first } => if first {
            Phase::AwaitFirstFork
        } else {
            Phase::AwaitSecondFork
        },
        ActionV::ChangeDirectory { .. } => Phase::AwaitChangeDirectory,
        ActionV::CreateSession => Phase::AwaitCreateSession,
        ActionV::SetUmask { .. } => Phase::AwaitSetUmask,
        ActionV::OpenDevnull => Phase::AwaitDevnullOpen,
        ActionV::RedirectStream { target, .. } => if target == STDIN_FD {
            Phase::AwaitStdinRedirect
        } else if target == STDOUT_FD {
            Phase::AwaitStdoutRedirect
        } else {
            Phase::AwaitStderrRedirect
        },
        ActionV::CloseDevnull { .. } => Phase::AwaitDevnullClose,
        ActionV::LookupUser { .. } => Phase::AwaitUserLookup,
        ActionV::LookupGroup { .. } => Phase::AwaitGroupLookup,
        ActionV::ChownPidFile { .. } => Phase::AwaitChownPidFile,
        ActionV::RunPrivilegedAction => Phase::AwaitPrivilegedAction,
        ActionV::ChangeRoot { .. } => Phase::AwaitChangeRoot,
        ActionV::SetGroupId { .. } => Phase::AwaitSetGroup,
        ActionV::SetUserId { .. } => Phase::AwaitSetUser,
        ActionV::GetProcessId => Phase::AwaitProcessId,
        ActionV::TruncatePidFile { .. } => Phase::AwaitPidFileTruncate,
        ActionV::WritePidFile { .. } => Phase::AwaitPidFileWrite,
    }
}

/// Which events an outstanding action can come back with. Driving the
/// engine with any other event is a protocol violation.
pub open spec fn accepts(p: Phase, ev: Event) -> bool {
    match p {
        Phase::AwaitPidFileOpen => ev matches Event::OpenedFd { .. } || ev matches Event::Failed {
            ..
        },
        Phase::AwaitPidFileFlagsGet => ev matches Event::GotFlags { .. }
            || ev matches Event::Failed { .. },
        Phase::AwaitPidFileFlagsSet => ev == Event::Succeeded || ev matches Event::Failed { .. },
        Phase::AwaitPidFileLock => ev == Event::Succeeded || ev matches Event::Failed { .. },
        Phase::AwaitFirstFork => ev == Event::ForkedChild || ev matches Event::Failed { .. },
        Phase::AwaitChangeDirectory => ev == Event::Succeeded || ev matches Event::Failed { .. },
        Phase::AwaitCreateSession => ev == Event::Succeeded || ev matches Event::Failed { .. },
        Phase::AwaitSetUmask => ev == Event::Succeeded,
        Phase::AwaitSecondFork => ev == Event::ForkedChild || ev matches Event::Failed { .. },
        Phase::AwaitDevnullOpen => ev matches Event::OpenedFd { .. } || ev matches Event::Failed {
            ..
        },
        Phase::AwaitStdinRedirect => ev == Event::Succeeded || ev matches Event::Failed { .. },
        Phase::AwaitStdoutRedirect => ev == Event::Succeeded || ev matches Event::Failed { .. },
        Phase::AwaitStderrRedirect => ev == Event::Succeeded || ev matches Event::Failed { .. },
        Phase::AwaitDevnullClose => ev == Event::Succeeded || ev matches Event::Failed { .. },
        Phase::AwaitUserLookup => ev matches Event::FoundId { .. } || ev == Event::NoSuchId,
        Phase::AwaitGroupLookup => ev matches Event::FoundId { .. } || ev == Event::NoSuchId,
        Phase::AwaitChownPidFile => ev == Event::Succeeded || ev matches Event::Failed { .. },
        Phase::AwaitPrivilegedAction => ev == Event::Succeeded,
        Phase::AwaitChangeRoot => ev == Event::Succeeded || ev matches Event::Failed { .. },
        Phase::AwaitSetGroup => ev == Event::Succeeded || ev matches Event::Failed { .. },
        Phase::AwaitSetUser => ev == Event::Succeeded || ev matches Event::Failed { .. },
        Phase::AwaitProcessId => ev matches Event::GotPid { pid } && pid >= 0,
        Phase::AwaitPidFileTruncate => ev == Event::Succeeded || ev matches Event::Failed { .. },
        Phase::AwaitPidFileWrite => ev == Event::Succeeded || ev matches Event::Failed { .. },
        Phase::Finished => false,
        Phase::Failed => false,
    }
}

/// Phases in which the pid file has been opened and its descriptor is
/// held.
pub open spec fn pid_fd_phase(p: Phase) -> bool {
    phase_rank(Phase::AwaitPidFileFlagsGet) <= phase_rank(p) <= phase_rank(
        Phase::AwaitPidFileLock,
    )
}

/// Phases in which the null device is open.
pub open spec fn devnull_phase(p: Phase) -> bool {
    phase_rank(Phase::AwaitStdinRedirect) <= phase_rank(p) <= phase_rank(Phase::AwaitDevnullClose)
}

/// Phases at or after the point where the user identity is resolved.
pub open spec fn user_resolved_phase(p: Phase) -> bool {
    phase_rank(Phase::AwaitGroupLookup) <= phase_rank(p) <= phase_rank(Phase::AwaitPidFileWrite)
}

/// Phases at or after the point where both identities are resolved.
pub open spec fn group_resolved_phase(p: Phase) -> bool {
    phase_rank(Phase::AwaitChownPidFile) <= phase_rank(p) <= phase_rank(Phase::AwaitPidFileWrite)
}

/// What the user identity stored in the engine must look like once
/// resolution has passed: nothing when no user was configured, the
/// configured id when an id was configured, and some looked-up id when a
/// name was configured.
pub open spec fn user_identity_resolved(cfg: DaemonizeV, uid: Option<u32>) -> bool {
    match cfg.user {
        None => uid is None,
        Some(UserV::Id(i)) => uid == Some(i),
        Some(UserV::Name(_)) => uid is Some,
    }
}

/// The group counterpart of `user_identity_resolved`.
pub open spec fn group_identity_resolved(cfg: DaemonizeV, gid: Option<u32>) -> bool {
    match cfg.group {
        None => gid is None,
        Some(GroupV::Id(i)) => gid == Some(i),
        Some(GroupV::Name(_)) => gid is Some,
    }
}

/// The engine's well-formedness: what each phase guarantees about the
/// accumulated values. Established by `Daemonize::start` and preserved by
/// every step.
pub open spec fn wf(m: EngineV) -> bool {
    &&& (m.phase == Phase::AwaitPidFileOpen ==> m.cfg.pid_file is Some && m.pid_fd is None)
    &&& (pid_fd_phase(m.phase) ==> m.cfg.pid_file is Some && m.pid_fd is Some)
    &&& (phase_rank(m.phase) >= phase_rank(Phase::AwaitFirstFork) && !is_terminal(m.phase)
        ==> (m.pid_fd is Some <==> m.cfg.pid_file is Some))
    &&& (!is_terminal(m.phase) ==> match m.cfg.pid_file {
        Some(p) => !contains_nul(p),
        None => true,
    })
    &&& (devnull_phase(m.phase) ==> m.devnull_fd is Some)
    &&& (m.phase == Phase::AwaitUserLookup ==> m.uid is None && match m.cfg.user {
        Some(UserV::Name(n)) => !contains_nul(n),
        _ => false,
    })
    &&& (m.phase == Phase::AwaitGroupLookup ==> m.gid is None && match m.cfg.group {
        Some(GroupV::Name(n)) => !contains_nul(n),
        _ => false,
    })
    &&& (user_resolved_phase(m.phase) ==> user_identity_resolved(m.cfg, m.uid))
    &&& (group_resolved_phase(m.phase) ==> group_identity_resolved(m.cfg, m.gid))
    &&& (phase_rank(m.phase) < phase_rank(Phase::AwaitGroupLookup) ==> m.uid is None)
    &&& (phase_rank(m.phase) < phase_rank(Phase::AwaitChownPidFile) ==> m.gid is None)
    &&& (m.phase == Phase::AwaitPidFileTruncate || m.phase == Phase::AwaitPidFileWrite
        ==> match m.pid_val {
        Some(p) => p >= 0,
        None => false,
    })
    &&& (m.phase == Phase::AwaitChownPidFile ==> m.cfg.pid_file is Some && m.cfg.chown_pid_file)
    &&& (m.phase == Phase::AwaitProcessId || m.phase == Phase::AwaitPidFileTruncate || m.phase
        == Phase::AwaitPidFileWrite ==> m.pid_fd is Some)
}

/// The descriptor held for the pid file; meaningful when it is held.
pub open spec fn pid_fd_of(m: EngineV) -> i32 {
    match m.pid_fd {
        Some(fd) => fd,
        None => 0,
    }
}

/// The descriptor held for the null device; meaningful while it is open.
pub open spec fn devnull_of(m: EngineV) -> i32 {
    match m.devnull_fd {
        Some(fd) => fd,
        None => 0,
    }
}

/// The source descriptor a stream choice redirects from: the null device
/// for a discarded stream, the caller's file for a redirected one.
pub open spec fn stream_source(t: StdioTarget, devnull: i32) -> i32 {
    match t {
        StdioTarget::Devnull => devnull,
        StdioTarget::RedirectToFile(fd) => fd,
    }
}

/// An id to hand to the ownership change: the resolved id, or the
/// leave-unchanged value for an unconfigured side.
pub open spec fn id_or_unchanged(o: Option<u32>) -> u32 {
    match o {
        Some(i) => i,
        None => UNCHANGED_ID,
    }
}

/// The stored pid; meaningful once it was reported.
pub open spec fn pid_of(m: EngineV) -> i32 {
    match m.pid_val {
        Some(p) => p,
        None => 0,
    }
}

/// A transition into the failed state.
pub open spec fn fail_with(m: EngineV, k: ErrorKind) -> TransitionV {
    TransitionV { next: EngineV { phase: Phase::Failed, ..m }, out: StepV::Fail(k) }
}

/// Entry into the first fork: the pid file, if any, is open and locked.
pub open spec fn first_fork_entry(m: EngineV) -> TransitionV {
    TransitionV {
        next: EngineV { phase: Phase::AwaitFirstFork, ..m },
        out: StepV::Run(ActionV::ForkProcess { first: true }),
    }
}

/// Entry into user resolution, falling through to group resolution when
/// no lookup is needed.
pub open spec fn user_entry(m: EngineV) -> TransitionV {
    match m.cfg.user {
        None => group_entry(m),
        Some(UserV::Id(i)) => group_entry(EngineV { uid: Some(i), ..m }),
        Some(UserV::Name(n)) => if contains_nul(n) {
            fail_with(m, ErrorKind::UserContainsNul)
        } else {
            TransitionV {
                next: EngineV { phase: Phase::AwaitUserLookup, ..m },
                out: StepV::Run(ActionV::LookupUser { name: n }),
            }
        },
    }
}

/// Entry into group resolution, falling through to the ownership change
/// when no lookup is needed.
pub open spec fn group_entry(m: EngineV) -> TransitionV {
    match m.cfg.group {
        None => chown_entry(m),
        Some(GroupV::Id(i)) => chown_entry(EngineV { gid: Some(i), ..m }),
        Some(GroupV::Name(n)) => if contains_nul(n) {
            fail_with(m, ErrorKind::GroupContainsNul)
        } else {
            TransitionV {
                next: EngineV { phase: Phase::AwaitGroupLookup, ..m },
                out: StepV::Run(ActionV::LookupGroup { name: n }),
            }
        },
    }
}

/// Entry into the pid-file ownership change: performed only when it was
/// requested, a pid file is configured, and at least one identity was
/// configured; an unconfigured side is passed as the leave-unchanged id.
pub open spec fn chown_entry(m: EngineV) -> TransitionV {
    if m.cfg.chown_pid_file && m.cfg.pid_file is Some && (m.uid is Some || m.gid is Some) {
        TransitionV {
            next: EngineV { phase: Phase::AwaitChownPidFile, ..m },
            out: StepV::Run(
                ActionV::ChownPidFile {
                    path: m.cfg.pid_file.unwrap(),
                    uid: id_or_unchanged(m.uid),
                    gid: id_or_unchanged(m.gid),
                },
            ),
        }
    } else {
        privileged_entry(m)
    }
}

/// Entry into the caller's privileged action.
pub open spec fn privileged_entry(m: EngineV) -> TransitionV {
    TransitionV {
        next: EngineV { phase: Phase::AwaitPrivilegedAction, ..m },
        out: StepV::Run(ActionV::RunPrivilegedAction),
    }
}

/// Entry into the root change, falling through to the privilege drop
/// when none is configured.
pub open spec fn root_entry(m: EngineV) -> TransitionV {
    match m.cfg.root {
        None => drop_group_entry(m),
        Some(p) => if contains_nul(p) {
            fail_with(m, ErrorKind::PathContainsNul)
        } else {
            TransitionV {
                next: EngineV { phase: Phase::AwaitChangeRoot, ..m },
                out: StepV::Run(ActionV::ChangeRoot { path: p }),
            }
        },
    }
}

/// Entry into the group drop — group before user, since dropping the
/// user first would remove the right to change the group.
pub open spec fn drop_group_entry(m: EngineV) -> TransitionV {
    match m.gid {
        Some(g) => TransitionV {
            next: EngineV { phase: Phase::AwaitSetGroup, ..m },
            out: StepV::Run(ActionV::SetGroupId { gid: g }),
        },
        None => drop_user_entry(m),
    }
}

/// Entry into the user drop.
pub open spec fn drop_user_entry(m: EngineV) -> TransitionV {
    match m.uid {
        Some(u) => TransitionV {
            next: EngineV { phase: Phase::AwaitSetUser, ..m },
            out: StepV::Run(ActionV::SetUserId { uid: u }),
        },
        None => write_entry(m),
    }
}

/// Entry into writing the pid file, or completion when none is
/// configured. The pid is asked for only now, from the process that will
/// persist.
pub open spec fn write_entry(m: EngineV) -> TransitionV {
    match m.pid_fd {
        Some(_) => TransitionV {
            next: EngineV { phase: Phase::AwaitProcessId, ..m },
            out: StepV::Run(ActionV::GetProcessId),
        },
        None => TransitionV { next: EngineV { phase: Phase::Finished, ..m }, out: StepV::Done },
    }
}

/// The first transition: from a configuration to the initial engine
/// state and the first step. A configured pid file is opened and locked
/// before anything else; without one the sequence begins with the first
/// fork.
pub open spec fn init_spec(cfg: DaemonizeV) -> TransitionV {
    let m = EngineV {
        cfg: cfg,
        phase: Phase::AwaitPidFileOpen,
        pid_fd: None,
        devnull_fd: None,
        uid: None,
        gid: None,
        pid_val: None,
    };
    match cfg.pid_file {
        None => first_fork_entry(m),
        Some(p) => if contains_nul(p) {
            fail_with(m, ErrorKind::PathContainsNul)
        } else {
            TransitionV { next: m, out: StepV::Run(ActionV::OpenPidFile { path: p }) }
        },
    }
}

/// The transition function: what the engine does with the outcome of the
/// outstanding action. This is the whole orchestration order in one
/// place. Only pairs admitted by [`accepts`] ever arise; the fallthrough
/// arms for events a phase does not accept are arbitrary.
pub open spec fn step_spec(m: EngineV, ev: Event) -> TransitionV {
    match m.phase {
        Phase::AwaitPidFileOpen => match ev {
            Event::OpenedFd { fd } => TransitionV {
                next: EngineV {
                    phase: Phase::AwaitPidFileFlagsGet,
                    pid_fd: Some(fd),
                    ..m
                },
                out: StepV::Run(ActionV::GetPidFileFlags { fd }),
            },
            Event::Failed { errno } => fail_with(m, ErrorKind::OpenPidfile(errno)),
            _ => fail_with(m, ErrorKind::WritePid),
        },
        Phase::AwaitPidFileFlagsGet => match ev {
            Event::GotFlags { flags } => TransitionV {
                next: EngineV { phase: Phase::AwaitPidFileFlagsSet, ..m },
                out: StepV::Run(
                    ActionV::SetPidFileFlags {
                        fd: pid_fd_of(m),
                        flags: flags | CLOSE_ON_EXEC_FLAG,
                    },
                ),
            },
            Event::Failed { errno } => fail_with(m, ErrorKind::GetPidfileFlags(errno)),
            _ => fail_with(m, ErrorKind::WritePid),
        },
        Phase::AwaitPidFileFlagsSet => match ev {
            Event::Succeeded => TransitionV {
                next: EngineV { phase: Phase::AwaitPidFileLock, ..m },
                out: StepV::Run(ActionV::LockPidFile { fd: pid_fd_of(m) }),
            },
            Event::Failed { errno } => fail_with(m, ErrorKind::SetPidfileFlags(errno)),
            _ => fail_with(m, ErrorKind::WritePid),
        },
        Phase::AwaitPidFileLock => match ev {
            Event::Succeeded => first_fork_entry(m),
            Event::Failed { errno } => fail_with(m, ErrorKind::LockPidfile(errno)),
            _ => fail_with(m, ErrorKind::WritePid),
        },
        Phase::AwaitFirstFork => match ev {
            Event::ForkedChild => TransitionV {
                next: EngineV { phase: Phase::AwaitChangeDirectory, ..m },
                out: StepV::Run(ActionV::ChangeDirectory { path: m.cfg.directory }),
            },
            Event::Failed { errno } => fail_with(m, ErrorKind::Fork(errno)),
            _ => fail_with(m, ErrorKind::WritePid),
        },
        Phase::AwaitChangeDirectory => match ev {
            Event::Succeeded => TransitionV {
                next: EngineV { phase: Phase::AwaitCreateSession, ..m },
                out: StepV::Run(ActionV::CreateSession),
            },
            Event::Failed { errno } => fail_with(m, ErrorKind::ChangeDirectory(errno)),
            _ => fail_with(m, ErrorKind::WritePid),
        },
        Phase::AwaitCreateSession => match ev {
            Event::Succeeded => TransitionV {
                next: EngineV { phase: Phase::AwaitSetUmask, ..m },
                out: StepV::Run(ActionV::SetUmask { mask: m.cfg.umask }),
            },
            Event::Failed { errno } => fail_with(m, ErrorKind::DetachSession(errno)),
            _ => fail_with(m, ErrorKind::WritePid),
        },
        Phase::AwaitSetUmask => TransitionV {
            next: EngineV { phase: Phase::AwaitSecondFork, ..m },
            out: StepV::Run(ActionV::ForkProcess { first: false }),
        },
        Phase::AwaitSecondFork => match ev {
            Event::ForkedChild => TransitionV {
                next: EngineV { phase: Phase::AwaitDevnullOpen, ..m },
                out: StepV::Run(ActionV::OpenDevnull),
            },
            Event::Failed { errno } => fail_with(m, ErrorKind::Fork(errno)),
            _ => fail_with(m, ErrorKind::WritePid),
        },
        Phase::AwaitDevnullOpen => match ev {
            Event::OpenedFd { fd } => TransitionV {
                next: EngineV {
                    phase: Phase::AwaitStdinRedirect,
                    devnull_fd: Some(fd),
                    ..m
                },
                out: StepV::Run(
                    ActionV::RedirectStream {
                        source: stream_source(m.cfg.stdin, fd),
                        target: STDIN_FD,
                    },
                ),
            },
            Event::Failed { errno } => fail_with(m, ErrorKind::OpenDevnull(errno)),
            _ => fail_with(m, ErrorKind::WritePid),
        },
        Phase::AwaitStdinRedirect => match ev {
            Event::Succeeded => TransitionV {
                next: EngineV { phase: Phase::AwaitStdoutRedirect, ..m },
                out: StepV::Run(
                    ActionV::RedirectStream {
                        source: stream_source(m.cfg.stdout, devnull_of(m)),
                        target: STDOUT_FD,
                    },
                ),
            },
            Event::Failed { errno } => fail_with(m, ErrorKind::RedirectStreams(errno)),
            _ => fail_with(m, ErrorKind::WritePid),
        },
        Phase::AwaitStdoutRedirect => match ev {
            Event::Succeeded => TransitionV {
                next: EngineV { phase: Phase::AwaitStderrRedirect, ..m },
                out: StepV::Run(
                    ActionV::RedirectStream {
                        source: stream_source(m.cfg.stderr, devnull_of(m)),
                        target: STDERR_FD,
                    },
                ),
            },
            Event::Failed { errno } => fail_with(m, ErrorKind::RedirectStreams(errno)),
            _ => fail_with(m, ErrorKind::WritePid),
        },
        Phase::AwaitStderrRedirect => match ev {
            Event::Succeeded => TransitionV {
                next: EngineV { phase: Phase::AwaitDevnullClose, ..m },
                out: StepV::Run(ActionV::CloseDevnull { fd: devnull_of(m) }),
            },
            Event::Failed { errno } => fail_with(m, ErrorKind::RedirectStreams(errno)),
            _ => fail_with(m, ErrorKind::WritePid),
        },
        Phase::AwaitDevnullClose => match ev {
            Event::Succeeded => user_entry(EngineV { devnull_fd: None, ..m }),
            Event::Failed { errno } => fail_with(m, ErrorKind::CloseDevnull(errno)),
            _ => fail_with(m, ErrorKind::WritePid),
        },
        Phase::AwaitUserLookup => match ev {
            Event::FoundId { id } => group_entry(EngineV { uid: Some(id), ..m }),
            _ => fail_with(m, ErrorKind::UserNotFound),
        },
        Phase::AwaitGroupLookup => match ev {
            Event::FoundId { id } => chown_entry(EngineV { gid: Some(id), ..m }),
            _ => fail_with(m, ErrorKind::GroupNotFound),
        },
        Phase::AwaitChownPidFile => match ev {
            Event::Succeeded => privileged_entry(m),
            Event::Failed { errno } => fail_with(m, ErrorKind::ChownPidfile(errno)),
            _ => fail_with(m, ErrorKind::WritePid),
        },
        Phase::AwaitPrivilegedAction => root_entry(m),
        Phase::AwaitChangeRoot => match ev {
            Event::Succeeded => drop_group_entry(m),
            Event::Failed { errno } => fail_with(m, ErrorKind::Chroot(errno)),
            _ => fail_with(m, ErrorKind::WritePid),
        },
        Phase::AwaitSetGroup => match ev {
            Event::Succeeded => drop_user_entry(m),
            Event::Failed { errno } => fail_with(m, ErrorKind::SetGroup(errno)),
            _ => fail_with(m, ErrorKind::WritePid),
        },
        Phase::AwaitSetUser => match ev {
            Event::Succeeded => write_entry(m),
            Event::Failed { errno } => fail_with(m, ErrorKind::SetUser(errno)),
            _ => fail_with(m, ErrorKind::WritePid),
        },
        Phase::AwaitProcessId => match ev {
            Event::GotPid { pid } => TransitionV {
                next: EngineV {
                    phase: Phase::AwaitPidFileTruncate,
                    pid_val: Some(pid),
                    ..m
                },
                out: StepV::Run(ActionV::TruncatePidFile { fd: pid_fd_of(m) }),
            },
            _ => fail_with(m, ErrorKind::WritePid),
        },
        Phase::AwaitPidFileTruncate => match ev {
            Event::Succeeded => TransitionV {
                next: EngineV { phase: Phase::AwaitPidFileWrite, ..m },
                out: StepV::Run(
                    ActionV::WritePidFile {
                        fd: pid_fd_of(m),
                        text: spec_decimal(pid_of(m) as nat),
                    },
                ),
            },
            _ => fail_with(m, ErrorKind::WritePid),
        },
        Phase::AwaitPidFileWrite => match ev {
            Event::Succeeded => TransitionV {
                next: EngineV { phase: Phase::Finished, ..m },
                out: StepV::Done,
            },
            _ => fail_with(m, ErrorKind::WritePid),
        },
        Phase::Finished => TransitionV { next: m, out: StepV::Done },
        Phase::Failed => TransitionV { next: m, out: StepV::Done },
    }
}

impl Daemonize {
    /// Begin daemonization: build the engine and hand out the first
    /// step of the fixed sequence.
    pub fn start(self) -> (r: (Engine, Step))
        ensures
            r.0@ =~= init_spec(self@).next,
            r.1@ =~= init_spec(self@).out,
            wf(r.0@),
    {
        let nul_in_path = match &self.pid_file {
            Some(p) => has_nul(p.as_str()),
            None => false,
        };
        let first_path = match &self.pid_file {
            Some(p) => Some(p.clone()),
            None => None,
        };
        let engine = Engine {
            cfg: self,
            phase: Phase::AwaitPidFileOpen,
            pid_fd: None,
            devnull_fd: None,
            uid: None,
            gid: None,
            pid_val: None,
        };
        match first_path {
            None => {
                let engine = Engine { phase: Phase::AwaitFirstFork, ..engine };
                let step = Step::Run(Action::ForkProcess { first: true });
                (engine, step)
            },
            Some(path) => {
                if nul_in_path {
                    let engine = Engine { phase: Phase::Failed, ..engine };
                    (engine, Step::Fail(ErrorKind::PathContainsNul))
                } else {
                    (engine, Step::Run(Action::OpenPidFile { path }))
                }
            },
        }
    }
}

impl Engine {
    /// The phase the engine currently stands in.
    pub fn phase(&self) -> (r: Phase)
        ensures
            r == self@.phase,
    {
        self.phase
    }

    /// Whether the engine would accept this event now.
    pub fn accepts_event(&self, ev: Event) -> (r: bool)
        ensures
            r == accepts(self@.phase, ev),
    {
        match self.phase {
            Phase::AwaitPidFileOpen => matches!(ev, Event::OpenedFd { .. } | Event::Failed { .. }),
            Phase::AwaitPidFileFlagsGet => matches!(
                ev,
                Event::GotFlags { .. } | Event::Failed { .. }
            ),
            Phase::AwaitPidFileFlagsSet => matches!(ev, Event::Succeeded | Event::Failed { .. }),
            Phase::AwaitPidFileLock => matches!(ev, Event::Succeeded | Event::Failed { .. }),
            Phase::AwaitFirstFork => matches!(ev, Event::ForkedChild | Event::Failed { .. }),
            Phase::AwaitChangeDirectory => matches!(ev, Event::Succeeded | Event::Failed { .. }),
            Phase::AwaitCreateSession => matches!(ev, Event::Succeeded | Event::Failed { .. }),
            Phase::AwaitSetUmask => matches!(ev, Event::Succeeded),
            Phase::AwaitSecondFork => matches!(ev, Event::ForkedChild | Event::Failed { .. }),
            Phase::AwaitDevnullOpen => matches!(ev, Event::OpenedFd { .. } | Event::Failed { .. }),
            Phase::AwaitStdinRedirect => matches!(ev, Event::Succeeded | Event::Failed { .. }),
            Phase::AwaitStdoutRedirect => matches!(ev, Event::Succeeded | Event::Failed { .. }),
            Phase::AwaitStderrRedirect => matches!(ev, Event::Succeeded | Event::Failed { .. }),
            Phase::AwaitDevnullClose => matches!(ev, Event::Succeeded | Event::Failed { .. }),
            Phase::AwaitUserLookup => matches!(ev, Event::FoundId { .. } | Event::NoSuchId),
            Phase::AwaitGroupLookup => matches!(ev, Event::FoundId { .. } | Event::NoSuchId),
            Phase::AwaitChownPidFile => matches!(ev, Event::Succeeded | Event::Failed { .. }),
            Phase::AwaitPrivilegedAction => matches!(ev, Event::Succeeded),
            Phase::AwaitChangeRoot => matches!(ev, Event::Succeeded | Event::Failed { .. }),
            Phase::AwaitSetGroup => matches!(ev, Event::Succeeded | Event::Failed { .. }),
            Phase::AwaitSetUser => matches!(ev, Event::Succeeded | Event::Failed { .. }),
            Phase::AwaitProcessId => match ev {
                Event::GotPid { pid } => pid >= 0,
                _ => false,
            },
            Phase::AwaitPidFileTruncate => matches!(ev, Event::Succeeded | Event::Failed { .. }),
            Phase::AwaitPidFileWrite => matches!(ev, Event::Succeeded | Event::Failed { .. }),
            Phase::Finished => false,
            Phase::Failed => false,
        }
    }

    /// Consume the outcome of the outstanding action and hand out the
    /// next step. The transition taken is exactly `step_spec`.
    pub fn step(&mut self, ev: Event) -> (r: Step)
        requires
            wf(old(self)@),
            accepts(old(self)@.phase, ev),
        ensures
            final(self)@ =~= step_spec(old(self)@, ev).next,
            r@ =~= step_spec(old(self)@, ev).out,
            wf(final(self)@),
    {
        match self.phase {
            Phase::AwaitPidFileOpen => match ev {
                Event::OpenedFd { fd } => {
                    self.phase = Phase::AwaitPidFileFlagsGet;
                    self.pid_fd = Some(fd);
                    Step::Run(Action::GetPidFileFlags { fd })
                },
                Event::Failed { errno } => self.fail(ErrorKind::OpenPidfile(errno)),
                _ => {
                    proof {
                        assert(false);
                    }
                    Step::Done
                },
            },
            Phase::AwaitPidFileFlagsGet => match ev {
                Event::GotFlags { flags } => {
                    let fd = self.pid_fd.unwrap();
                    self.phase = Phase::AwaitPidFileFlagsSet;
                    Step::Run(Action::SetPidFileFlags { fd, flags: flags | CLOSE_ON_EXEC_FLAG })
                },
                Event::Failed { errno } => self.fail(ErrorKind::GetPidfileFlags(errno)),
                _ => {
                    proof {
                        assert(false);
                    }
                    Step::Done
                },
            },
            Phase::AwaitPidFileFlagsSet => match ev {
                Event::Succeeded => {
                    let fd = self.pid_fd.unwrap();
                    self.phase = Phase::AwaitPidFileLock;
                    Step::Run(Action::LockPidFile { fd })
                },
                Event::Failed { errno } => self.fail(ErrorKind::SetPidfileFlags(errno)),
                _ => {
                    proof {
                        assert(false);
                    }
                    Step::Done
                },
            },
            Phase::AwaitPidFileLock => match ev {
                Event::Succeeded => self.enter_first_fork(),
                Event::Failed { errno } => self.fail(ErrorKind::LockPidfile(errno)),
                _ => {
                    proof {
                        assert(false);
                    }
                    Step::Done
                },
            },
            Phase::AwaitFirstFork => match ev {
                Event::ForkedChild => {
                    let path = self.cfg.directory.clone();
                    self.phase = Phase::AwaitChangeDirectory;
                    Step::Run(Action::ChangeDirectory { path })
                },
                Event::Failed { errno } => self.fail(ErrorKind::Fork(errno)),
                _ => {
                    proof {
                        assert(false);
                    }
                    Step::Done
                },
            },
            Phase::AwaitChangeDirectory => match ev {
                Event::Succeeded => {
                    self.phase = Phase::AwaitCreateSession;
                    Step::Run(Action::CreateSession)
                },
                Event::Failed { errno } => self.fail(ErrorKind::ChangeDirectory(errno)),
                _ => {
                    proof {
                        assert(false);
                    }
                    Step::Done
                },
            },
            Phase::AwaitCreateSession => match ev {
                Event::Succeeded => {
                    let mask = self.cfg.umask;
                    self.phase = Phase::AwaitSetUmask;
                    Step::Run(Action::SetUmask { mask })
                },
                Event::Failed { errno } => self.fail(ErrorKind::DetachSession(errno)),
                _ => {
                    proof {
                        assert(false);
                    }
                    Step::Done
                },
            },
            Phase::AwaitSetUmask => {
                self.phase = Phase::AwaitSecondFork;
                Step::Run(Action::ForkProcess { first: false })
            },
            Phase::AwaitSecondFork => match ev {
                Event::ForkedChild => {
                    self.phase = Phase::AwaitDevnullOpen;
                    Step::Run(Action::OpenDevnull)
                },
                Event::Failed { errno } => self.fail(ErrorKind::Fork(errno)),
                _ => {
                    proof {
                        assert(false);
                    }
                    Step::Done
                },
            },
            Phase::AwaitDevnullOpen => match ev {
                Event::OpenedFd { fd } => {
                    self.devnull_fd = Some(fd);
                    self.phase = Phase::AwaitStdinRedirect;
                    let source = match self.cfg.stdin.target {
                        StdioTarget::Devnull => fd,
                        StdioTarget::RedirectToFile(file_fd) => file_fd,
                    };
                    Step::Run(Action::RedirectStream { source, target: STDIN_FD })
                },
                Event::Failed { errno } => self.fail(ErrorKind::OpenDevnull(errno)),
                _ => {
                    proof {
                        assert(false);
                    }
                    Step::Done
                },
            },
            Phase::AwaitStdinRedirect => match ev {
                Event::Succeeded => {
                    self.phase = Phase::AwaitStdoutRedirect;
                    let devnull = self.devnull_fd.unwrap();
                    let source = match self.cfg.stdout.target {
                        StdioTarget::Devnull => devnull,
                        StdioTarget::RedirectToFile(file_fd) => file_fd,
                    };
                    Step::Run(Action::RedirectStream { source, target: STDOUT_FD })
                },
                Event::Failed { errno } => self.fail(ErrorKind::RedirectStreams(errno)),
                _ => {
                    proof {
                        assert(false);
                    }
                    Step::Done
                },
            },
            Phase::AwaitStdoutRedirect => match ev {
                Event::Succeeded => {
                    self.phase = Phase::AwaitStderrRedirect;
                    let devnull = self.devnull_fd.unwrap();
                    let source = match self.cfg.stderr.target {
                        StdioTarget::Devnull => devnull,
                        StdioTarget::RedirectToFile(file_fd) => file_fd,
                    };
                    Step::Run(Action::RedirectStream { source, target: STDERR_FD })
                },
                Event::Failed { errno } => self.fail(ErrorKind::RedirectStreams(errno)),
                _ => {
                    proof {
                        assert(false);
                    }
                    Step::Done
                },
            },
            Phase::AwaitStderrRedirect => match ev {
                Event::Succeeded => {
                    self.phase = Phase::AwaitDevnullClose;
                    let devnull = self.devnull_fd.unwrap();
                    Step::Run(Action::CloseDevnull { fd: devnull })
                },
                Event::Failed { errno } => self.fail(ErrorKind::RedirectStreams(errno)),
                _ => {
                    proof {
                        assert(false);
                    }
                    Step::Done
                },
            },
            Phase::AwaitDevnullClose => match ev {
                Event::Succeeded => {
                    self.devnull_fd = None;
                    self.enter_user()
                },
                Event::Failed { errno } => self.fail(ErrorKind::CloseDevnull(errno)),
                _ => {
                    proof {
                        assert(false);
                    }
                    Step::Done
                },
            },
            Phase::AwaitUserLookup => match ev {
                Event::FoundId { id } => {
                    self.uid = Some(id);
                    self.enter_group()
                },
                _ => self.fail(ErrorKind::UserNotFound),
            },
            Phase::AwaitGroupLookup => match ev {
                Event::FoundId { id } => {
                    self.gid = Some(id);
                    self.enter_chown()
                },
                _ => self.fail(ErrorKind::GroupNotFound),
            },
            Phase::AwaitChownPidFile => match ev {
                Event::Succeeded => self.enter_privileged(),
                Event::Failed { errno } => self.fail(ErrorKind::ChownPidfile(errno)),
                _ => {
                    proof {
                        assert(false);
                    }
                    Step::Done
                },
            },
            Phase::AwaitPrivilegedAction => self.enter_root(),
            Phase::AwaitChangeRoot => match ev {
                Event::Succeeded => self.enter_drop_group(),
                Event::Failed { errno } => self.fail(ErrorKind::Chroot(errno)),
                _ => {
                    proof {
                        assert(false);
                    }
                    Step::Done
                },
            },
            Phase::AwaitSetGroup => match ev {
                Event::Succeeded => self.enter_drop_user(),
                Event::Failed { errno } => self.fail(ErrorKind::SetGroup(errno)),
                _ => {
                    proof {
                        assert(false);
                    }
                    Step::Done
                },
            },
            Phase::AwaitSetUser => match ev {
                Event::Succeeded => self.enter_write(),
                Event::Failed { errno } => self.fail(ErrorKind::SetUser(errno)),
                _ => {
                    proof {
                        assert(false);
                    }
                    Step::Done
                },
            },
            Phase::AwaitProcessId => match ev {
                Event::GotPid { pid } => {
                    self.pid_val = Some(pid);
                    self.phase = Phase::AwaitPidFileTruncate;
                    let fd = self.pid_fd.unwrap();
                    Step::Run(Action::TruncatePidFile { fd })
                },
                _ => {
                    proof {
                        assert(false);
                    }
                    Step::Done
                },
            },
            Phase::AwaitPidFileTruncate => match ev {
                Event::Succeeded => {
                    self.phase = Phase::AwaitPidFileWrite;
                    let fd = self.pid_fd.unwrap();
                    let pid = self.pid_val.unwrap();
                    let text = format_u64(pid as u64);
                    Step::Run(Action::WritePidFile { fd, text })
                },
                _ => self.fail(ErrorKind::WritePid),
            },
            Phase::AwaitPidFileWrite => match ev {
                Event::Succeeded => {
                    self.phase = Phase::Finished;
                    Step::Done
                },
                _ => self.fail(ErrorKind::WritePid),
            },
            Phase::Finished => {
                proof {
                    assert(false);
                }
                Step::Done
            },
            Phase::Failed => {
                proof {
                    assert(false);
                }
                Step::Done
            },
        }
    }

    /// Map a failure to the failed state.
    fn fail(&mut self, k: ErrorKind) -> (r: Step)
        ensures
            final(self)@ =~= (EngineV { phase: Phase::Failed, ..old(self)@ }),
            r@ == StepV::Fail(k),
    {
        self.phase = Phase::Failed;
        Step::Fail(k)
    }

    /// The first fork: the pid file, if any, is open and locked.
    fn enter_first_fork(&mut self) -> (r: Step)
        ensures
            final(self)@ =~= first_fork_entry(old(self)@).next,
            r@ =~= first_fork_entry(old(self)@).out,
    {
        self.phase = Phase::AwaitFirstFork;
        Step::Run(Action::ForkProcess { first: true })
    }

    /// User resolution, falling through to group resolution.
    fn enter_user(&mut self) -> (r: Step)
        ensures
            final(self)@ =~= user_entry(old(self)@).next,
            r@ =~= user_entry(old(self)@).out,
    {
        let mut name_opt: Option<String> = None;
        let mut id_opt: Option<u32> = None;
        match &self.cfg.user {
            None => {},
            Some(u) => match &u.inner {
                UserImpl::Name(s) => { name_opt = Some(s.clone()) },
                UserImpl::Id(i) => { id_opt = Some(*i) },
            },
        }
        if let Some(name) = name_opt {
            if has_nul(name.as_str()) {
                self.fail(ErrorKind::UserContainsNul)
            } else {
                self.phase = Phase::AwaitUserLookup;
                Step::Run(Action::LookupUser { name })
            }
        } else if let Some(i) = id_opt {
            self.uid = Some(i);
            self.enter_group()
        } else {
            self.enter_group()
        }
    }

    /// Group resolution, falling through to the ownership change.
    fn enter_group(&mut self) -> (r: Step)
        ensures
            final(self)@ =~= group_entry(old(self)@).next,
            r@ =~= group_entry(old(self)@).out,
    {
        let mut name_opt: Option<String> = None;
        let mut id_opt: Option<u32> = None;
        match &self.cfg.group {
            None => {},
            Some(g) => match &g.inner {
                GroupImpl::Name(s) => { name_opt = Some(s.clone()) },
                GroupImpl::Id(i) => { id_opt = Some(*i) },
            },
        }
        if let Some(name) = name_opt {
            if has_nul(name.as_str()) {
                self.fail(ErrorKind::GroupContainsNul)
            } else {
                self.phase = Phase::AwaitGroupLookup;
                Step::Run(Action::LookupGroup { name })
            }
        } else if let Some(i) = id_opt {
            self.gid = Some(i);
            self.enter_chown()
        } else {
            self.enter_chown()
        }
    }

    /// The pid-file ownership change, falling through to the privileged
    /// action when it is not due.
    fn enter_chown(&mut self) -> (r: Step)
        ensures
            final(self)@ =~= chown_entry(old(self)@).next,
            r@ =~= chown_entry(old(self)@).out,
    {
        let path_opt: Option<String> = match &self.cfg.pid_file {
            Some(p) => Some(p.clone()),
            None => None,
        };
        if self.cfg.chown_pid_file && path_opt.is_some() && (self.uid.is_some()
            || self.gid.is_some()) {
            let uid = match self.uid {
                Some(u) => u,
                None => UNCHANGED_ID,
            };
            let gid = match self.gid {
                Some(g) => g,
                None => UNCHANGED_ID,
            };
            self.phase = Phase::AwaitChownPidFile;
            Step::Run(Action::ChownPidFile { path: path_opt.unwrap(), uid, gid })
        } else {
            self.enter_privileged()
        }
    }

    /// The caller's privileged action.
    fn enter_privileged(&mut self) -> (r: Step)
        ensures
            final(self)@ =~= privileged_entry(old(self)@).next,
            r@ =~= privileged_entry(old(self)@).out,
    {
        self.phase = Phase::AwaitPrivilegedAction;
        Step::Run(Action::RunPrivilegedAction)
    }

    /// The root change, falling through to the privilege drop.
    fn enter_root(&mut self) -> (r: Step)
        ensures
            final(self)@ =~= root_entry(old(self)@).next,
            r@ =~= root_entry(old(self)@).out,
    {
        let path_opt: Option<String> = match &self.cfg.root {
            Some(p) => Some(p.clone()),
            None => None,
        };
        if let Some(path) = path_opt {
            if has_nul(path.as_str()) {
                self.fail(ErrorKind::PathContainsNul)
            } else {
                self.phase = Phase::AwaitChangeRoot;
                Step::Run(Action::ChangeRoot { path })
            }
        } else {
            self.enter_drop_group()
        }
    }

    /// The group drop — group before user.
    fn enter_drop_group(&mut self) -> (r: Step)
        ensures
            final(self)@ =~= drop_group_entry(old(self)@).next,
            r@ =~= drop_group_entry(old(self)@).out,
    {
        match self.gid {
            Some(g) => {
                self.phase = Phase::AwaitSetGroup;
                Step::Run(Action::SetGroupId { gid: g })
            },
            None => self.enter_drop_user(),
        }
    }

    /// The user drop.
    fn enter_drop_user(&mut self) -> (r: Step)
        ensures
            final(self)@ =~= drop_user_entry(old(self)@).next,
            r@ =~= drop_user_entry(old(self)@).out,
    {
        match self.uid {
            Some(u) => {
                self.phase = Phase::AwaitSetUser;
                Step::Run(Action::SetUserId { uid: u })
            },
            None => self.enter_write(),
        }
    }

    /// Writing the pid file, or completion when none is configured.
    fn enter_write(&mut self) -> (r: Step)
        ensures
            final(self)@ =~= write_entry(old(self)@).next,
            r@ =~= write_entry(old(self)@).out,
    {
        match self.pid_fd {
            Some(_) => {
                self.phase = Phase::AwaitProcessId;
                Step::Run(Action::GetProcessId)
            },
            None => {
                self.phase = Phase::Finished;
                Step::Done
            },
        }
    }
}

} // verus!
