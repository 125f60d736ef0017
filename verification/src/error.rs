//! The error taxonomy of the daemonization procedure: one variant per
//! failing operation, most carrying the OS error code captured right after
//! the failing call.

use vstd::prelude::*;

use crate::numfmt::{format_i64, spec_signed_decimal};

verus! {

/// An OS error code, as reported by the failing call.
pub type Errno = i32;

/// One variant per operation of the daemonization sequence that can fail.
#[derive(Clone, Copy, Debug, PartialEq, Eq, Structural)]
pub enum ErrorKind {
    /// Unable to fork
    Fork(Errno),
    /// Unable to create new session
    DetachSession(Errno),
    /// Unable to resolve group name to group id
    GroupNotFound,
    /// Group option contains NUL
    GroupContainsNul,
    /// Unable to set group
    SetGroup(Errno),
    /// Unable to resolve user name to user id
    UserNotFound,
    /// User option contains NUL
    UserContainsNul,
    /// Unable to set user
    SetUser(Errno),
    /// Unable to change directory
    ChangeDirectory(Errno),
    /// pid_file option contains NUL
    PathContainsNul,
    /// Unable to open pid file
    OpenPidfile(Errno),
    /// Unable to get pid file flags
    GetPidfileFlags(Errno),
    /// Unable to set pid file flags
    SetPidfileFlags(Errno),
    /// Unable to lock pid file
    LockPidfile(Errno),
    /// Unable to chown pid file
    ChownPidfile(Errno),
    /// Unable to open /dev/null
    OpenDevnull(Errno),
    /// Unable to redirect standard streams to /dev/null
    RedirectStreams(Errno),
    /// Unable to close /dev/null
    CloseDevnull(Errno),
    /// Unable to write self pid to pid file
    WritePid,
    /// Unable to chroot
    Chroot(Errno),
}

/// The human-readable phrase belonging to each kind.
pub open spec fn spec_description(k: ErrorKind) -> Seq<char> {
    match k {
        ErrorKind::Fork(_) => "unable to fork"@,
        ErrorKind::DetachSession(_) => "unable to create new session"@,
        ErrorKind::GroupNotFound => "unable to resolve group name to group id"@,
        ErrorKind::GroupContainsNul => "group option contains NUL"@,
        ErrorKind::SetGroup(_) => "unable to set group"@,
        ErrorKind::UserNotFound => "unable to resolve user name to user id"@,
        ErrorKind::UserContainsNul => "user option contains NUL"@,
        ErrorKind::SetUser(_) => "unable to set user"@,
        ErrorKind::ChangeDirectory(_) => "unable to change directory"@,
        ErrorKind::PathContainsNul => "pid_file option contains NUL"@,
        ErrorKind::OpenPidfile(_) => "unable to open pid file"@,
        ErrorKind::GetPidfileFlags(_) => "unable get pid file flags"@,
        ErrorKind::SetPidfileFlags(_) => "unable set pid file flags"@,
        ErrorKind::LockPidfile(_) => "unable to lock pid file"@,
        ErrorKind::ChownPidfile(_) => "unable to chown pid file"@,
        ErrorKind::OpenDevnull(_) => "unable to open /dev/null"@,
        ErrorKind::RedirectStreams(_) => "unable to redirect standard streams to /dev/null"@,
        ErrorKind::CloseDevnull(_) => "unable to close /dev/null"@,
        ErrorKind::WritePid => "unable to write self pid to pid file"@,
        ErrorKind::Chroot(_) => "unable to chroot into directory"@,
    }
}

/// The OS error code carried by the kind, where there is one.
pub open spec fn spec_errno(k: ErrorKind) -> Option<Errno> {
    match k {
        ErrorKind::Fork(e) => Some(e),
        ErrorKind::DetachSession(e) => Some(e),
        ErrorKind::GroupNotFound => None,
        ErrorKind::GroupContainsNul => None,
        ErrorKind::SetGroup(e) => Some(e),
        ErrorKind::UserNotFound => None,
        ErrorKind::UserContainsNul => None,
        ErrorKind::SetUser(e) => Some(e),
        ErrorKind::ChangeDirectory(e) => Some(e),
        ErrorKind::PathContainsNul => None,
        ErrorKind::OpenPidfile(e) => Some(e),
        ErrorKind::GetPidfileFlags(e) => Some(e),
        ErrorKind::SetPidfileFlags(e) => Some(e),
        ErrorKind::LockPidfile(e) => Some(e),
        ErrorKind::ChownPidfile(e) => Some(e),
        ErrorKind::OpenDevnull(e) => Some(e),
        ErrorKind::RedirectStreams(e) => Some(e),
        ErrorKind::CloseDevnull(e) => Some(e),
        ErrorKind::WritePid => None,
        ErrorKind::Chroot(e) => Some(e),
    }
}

/// The full message of a kind: its phrase, followed by the OS error code
/// when the kind carries one.
pub open spec fn spec_message(k: ErrorKind) -> Seq<char> {
    match spec_errno(k) {
        None => spec_description(k),
        Some(e) => spec_description(k) + ", errno "@ + spec_signed_decimal(e as int),
    }
}

impl ErrorKind {
    /// The human-readable phrase describing the failing operation.
    pub fn description(&self) -> (r: &'static str)
        ensures
            r@ == spec_description(*self),
    {
        match self {
            ErrorKind::Fork(_) => "unable to fork",
            ErrorKind::DetachSession(_) => "unable to create new session",
            ErrorKind::GroupNotFound => "unable to resolve group name to group id",
            ErrorKind::GroupContainsNul => "group option contains NUL",
            ErrorKind::SetGroup(_) => "unable to set group",
            ErrorKind::UserNotFound => "unable to resolve user name to user id",
            ErrorKind::UserContainsNul => "user option contains NUL",
            ErrorKind::SetUser(_) => "unable to set user",
            ErrorKind::ChangeDirectory(_) => "unable to change directory",
            ErrorKind::PathContainsNul => "pid_file option contains NUL",
            ErrorKind::OpenPidfile(_) => "unable to open pid file",
            ErrorKind::GetPidfileFlags(_) => "unable get pid file flags",
            ErrorKind::SetPidfileFlags(_) => "unable set pid file flags",
            ErrorKind::LockPidfile(_) => "unable to lock pid file",
            ErrorKind::ChownPidfile(_) => "unable to chown pid file",
            ErrorKind::OpenDevnull(_) => "unable to open /dev/null",
            ErrorKind::RedirectStreams(_) => "unable to redirect standard streams to /dev/null",
            ErrorKind::CloseDevnull(_) => "unable to close /dev/null",
            ErrorKind::WritePid => "unable to write self pid to pid file",
            ErrorKind::Chroot(_) => "unable to chroot into directory",
        }
    }

    /// The OS error code captured at the failure point, where the
    /// operation reports one.
    pub fn errno(&self) -> (r: Option<Errno>)
        ensures
            r == spec_errno(*self),
    {
        match self {
            ErrorKind::Fork(e) => Some(*e),
            ErrorKind::DetachSession(e) => Some(*e),
            ErrorKind::GroupNotFound => None,
            ErrorKind::GroupContainsNul => None,
            ErrorKind::SetGroup(e) => Some(*e),
            ErrorKind::UserNotFound => None,
            ErrorKind::UserContainsNul => None,
            ErrorKind::SetUser(e) => Some(*e),
            ErrorKind::ChangeDirectory(e) => Some(*e),
            ErrorKind::PathContainsNul => None,
            ErrorKind::OpenPidfile(e) => Some(*e),
            ErrorKind::GetPidfileFlags(e) => Some(*e),
            ErrorKind::SetPidfileFlags(e) => Some(*e),
            ErrorKind::LockPidfile(e) => Some(*e),
            ErrorKind::ChownPidfile(e) => Some(*e),
            ErrorKind::OpenDevnull(e) => Some(*e),
            ErrorKind::RedirectStreams(e) => Some(*e),
            ErrorKind::CloseDevnull(e) => Some(*e),
            ErrorKind::WritePid => None,
            ErrorKind::Chroot(e) => Some(*e),
        }
    }

    /// The phrase for this kind, with the OS error code appended when the
    /// kind carries one.
    pub fn message(&self) -> (r: String)
        ensures
            r@ == spec_message(*self),
    {
        let mut s = String::from_str(self.description());
        if let Some(e) = self.errno() {
            s.append(", errno ");
            s.append(format_i64(e as i64).as_str());
        }
        proof {
            assert(s@ =~= spec_message(*self));
        }
        s
    }
}

/// The error returned by a failed daemonization: a kind, kept behind a
/// dedicated type so that callers match on the kind explicitly.
#[derive(Clone, Copy, Debug, PartialEq, Eq, Structural)]
pub struct Error {
    pub kind: ErrorKind,
}

impl Error {
    /// The message of the carried kind.
    pub fn message(&self) -> (r: String)
        ensures
            r@ == spec_message(self.kind),
    {
        self.kind.message()
    }
}

impl From<ErrorKind> for Error {
    fn from(kind: ErrorKind) -> (r: Error)
        ensures
            r.kind == kind,
    {
        Error { kind }
    }
}

impl vstd::std_specs::convert::FromSpecImpl<ErrorKind> for Error {
    open spec fn obeys_from_spec() -> bool {
        true
    }

    open spec fn from_spec(kind: ErrorKind) -> Error {
        Error { kind }
    }
}

} // verus!
