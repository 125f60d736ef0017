//! Daemonization options: the identities to drop to, the pid file, the
//! working and root directories, the umask, and what to do with the three
//! standard streams. The builder only records choices; the orchestration
//! engine consumes them.
//!
//! Paths are plain UTF-8 strings and redirection targets are raw file
//! descriptor numbers, so that every recorded choice is a value the
//! contracts can speak about; the unverified driver that owns the real
//! files converts at the boundary.

use vstd::prelude::*;

verus! {

/// Whether a string holds a NUL character, which no path or name handed
/// to the OS may contain.
pub open spec fn contains_nul(s: Seq<char>) -> bool {
    exists|i: int| 0 <= i < s.len() && s[i] == '\0'
}

/// Reports whether a string holds a NUL character.
pub fn has_nul(s: &str) -> (r: bool)
    ensures
        r == contains_nul(s@),
{
    let len = s.unicode_len();
    let mut i: usize = 0;
    while i < len
        invariant
            0 <= i <= len,
            len == s@.len(),
            forall|j: int| 0 <= j < i ==> s@[j] != '\0',
        decreases len - i,
    {
        if s.get_char(i) == '\0' {
            return true;
        }
        i = i + 1;
    }
    false
}

/// The mathematical value of a user choice: a symbolic name still to be
/// resolved, or a numeric id.
pub enum UserV {
    Name(Seq<char>),
    Id(u32),
}

#[derive(Clone, Debug)]
pub enum UserImpl {
    Name(String),
    Id(u32),
}

/// A system user, given either by name or by numeric id. A name is
/// resolved to an id by the engine during daemonization.
#[derive(Clone, Debug)]
pub struct User {
    pub inner: UserImpl,
}

impl View for User {
    type V = UserV;

    open spec fn view(&self) -> UserV {
        match self.inner {
            UserImpl::Name(s) => UserV::Name(s@),
            UserImpl::Id(i) => UserV::Id(i),
        }
    }
}

impl From<String> for User {
    fn from(t: String) -> (r: User)
        ensures
            r@ == UserV::Name(t@),
    {
        User { inner: UserImpl::Name(t) }
    }
}

impl vstd::std_specs::convert::FromSpecImpl<String> for User {
    open spec fn obeys_from_spec() -> bool {
        true
    }

    open spec fn from_spec(t: String) -> User {
        User { inner: UserImpl::Name(t) }
    }
}

impl From<u32> for User {
    fn from(t: u32) -> (r: User)
        ensures
            r@ == UserV::Id(t),
    {
        User { inner: UserImpl::Id(t) }
    }
}

impl vstd::std_specs::convert::FromSpecImpl<u32> for User {
    open spec fn obeys_from_spec() -> bool {
        true
    }

    open spec fn from_spec(t: u32) -> User {
        User { inner: UserImpl::Id(t) }
    }
}

/// The mathematical value of a group choice.
pub enum GroupV {
    Name(Seq<char>),
    Id(u32),
}

#[derive(Clone, Debug)]
pub enum GroupImpl {
    Name(String),
    Id(u32),
}

/// A system group, given either by name or by numeric id.
#[derive(Clone, Debug)]
pub struct Group {
    pub inner: GroupImpl,
}

impl View for Group {
    type V = GroupV;

    open spec fn view(&self) -> GroupV {
        match self.inner {
            GroupImpl::Name(s) => GroupV::Name(s@),
            GroupImpl::Id(i) => GroupV::Id(i),
        }
    }
}

impl From<String> for Group {
    fn from(t: String) -> (r: Group)
        ensures
            r@ == GroupV::Name(t@),
    {
        Group { inner: GroupImpl::Name(t) }
    }
}

impl vstd::std_specs::convert::FromSpecImpl<String> for Group {
    open spec fn obeys_from_spec() -> bool {
        true
    }

    open spec fn from_spec(t: String) -> Group {
        Group { inner: GroupImpl::Name(t) }
    }
}

impl From<u32> for Group {
    fn from(t: u32) -> (r: Group)
        ensures
            r@ == GroupV::Id(t),
    {
        Group { inner: GroupImpl::Id(t) }
    }
}

impl vstd::std_specs::convert::FromSpecImpl<u32> for Group {
    open spec fn obeys_from_spec() -> bool {
        true
    }

    open spec fn from_spec(t: u32) -> Group {
        Group { inner: GroupImpl::Id(t) }
    }
}

/// What to do with one standard stream of the daemon: point it at the
/// null device, or at a caller-supplied open file descriptor.
#[derive(Clone, Copy, Debug, PartialEq, Eq, Structural)]
pub enum StdioTarget {
    Devnull,
    RedirectToFile(i32),
}

/// The recorded choice for one standard stream.
#[derive(Clone, Copy, Debug, PartialEq, Eq, Structural)]
pub struct Stdio {
    pub target: StdioTarget,
}

impl Stdio {
    /// The default choice: the stream is discarded into the null device.
    pub fn devnull() -> (r: Self)
        ensures
            r.target == StdioTarget::Devnull,
    {
        Stdio { target: StdioTarget::Devnull }
    }
}

impl From<i32> for Stdio {
    fn from(fd: i32) -> (r: Self)
        ensures
            r.target == StdioTarget::RedirectToFile(fd),
    {
        Stdio { target: StdioTarget::RedirectToFile(fd) }
    }
}

impl vstd::std_specs::convert::FromSpecImpl<i32> for Stdio {
    open spec fn obeys_from_spec() -> bool {
        true
    }

    open spec fn from_spec(fd: i32) -> Stdio {
        Stdio { target: StdioTarget::RedirectToFile(fd) }
    }
}

/// The mathematical value of a full set of daemonization options.
#[verifier::ext_equal]
pub struct DaemonizeV {
    pub directory: Seq<char>,
    pub pid_file: Option<Seq<char>>,
    pub chown_pid_file: bool,
    pub user: Option<UserV>,
    pub group: Option<GroupV>,
    pub umask: u32,
    pub root: Option<Seq<char>>,
    pub stdin: StdioTarget,
    pub stdout: StdioTarget,
    pub stderr: StdioTarget,
}

/// Daemonization options.
///
/// By default the working directory becomes "/", the umask becomes
/// 0o027, all three standard streams are discarded into the null device,
/// and no pid file, identity change or root change takes place.
#[derive(Debug)]
pub struct Daemonize {
    pub directory: String,
    pub pid_file: Option<String>,
    pub chown_pid_file: bool,
    pub user: Option<User>,
    pub group: Option<Group>,
    pub umask: u32,
    pub root: Option<String>,
    pub stdin: Stdio,
    pub stdout: Stdio,
    pub stderr: Stdio,
}

impl View for Daemonize {
    type V = DaemonizeV;

    open spec fn view(&self) -> DaemonizeV {
        DaemonizeV {
            directory: self.directory@,
            pid_file: match self.pid_file {
                Some(p) => Some(p@),
                None => None,
            },
            chown_pid_file: self.chown_pid_file,
            user: match self.user {
                Some(u) => Some(u@),
                None => None,
            },
            group: match self.group {
                Some(g) => Some(g@),
                None => None,
            },
            umask: self.umask,
            root: match self.root {
                Some(p) => Some(p@),
                None => None,
            },
            stdin: self.stdin.target,
            stdout: self.stdout.target,
            stderr: self.stderr.target,
        }
    }
}

impl Daemonize {
    /// Fresh options holding the defaults.
    pub fn new() -> (r: Self)
        ensures
            r@.directory == "/"@,
            r@.pid_file is None,
            r@.chown_pid_file == false,
            r@.user is None,
            r@.group is None,
            r@.umask == 0o027u32,
            r@.root is None,
            r@.stdin == StdioTarget::Devnull,
            r@.stdout == StdioTarget::Devnull,
            r@.stderr == StdioTarget::Devnull,
    {
        Daemonize {
            directory: String::from_str("/"),
            pid_file: None,
            chown_pid_file: false,
            user: None,
            group: None,
            umask: 0o027,
            root: None,
            stdin: Stdio::devnull(),
            stdout: Stdio::devnull(),
            stderr: Stdio::devnull(),
        }
    }

    /// Create the pid file at `path` during daemonization, lock it
    /// exclusively, and write the daemon's pid into it.
    pub fn pid_file(self, path: String) -> (r: Self)
        ensures
            r@ =~= (DaemonizeV { pid_file: Some(path@), ..self@ }),
    {
        Daemonize { pid_file: Some(path), ..self }
    }

    /// If `chown` is set, the pid file's ownership is changed to the
    /// configured user and group, where at least one of them is given.
    pub fn chown_pid_file(self, chown: bool) -> (r: Self)
        ensures
            r@ =~= (DaemonizeV { chown_pid_file: chown, ..self@ }),
    {
        Daemonize { chown_pid_file: chown, ..self }
    }

    /// Change the working directory to `path`; "/" if never called.
    pub fn working_directory(self, path: String) -> (r: Self)
        ensures
            r@ =~= (DaemonizeV { directory: path@, ..self@ }),
    {
        Daemonize { directory: path, ..self }
    }

    /// Drop privileges to `user`.
    pub fn user(self, user: User) -> (r: Self)
        ensures
            r@ =~= (DaemonizeV { user: Some(user@), ..self@ }),
    {
        Daemonize { user: Some(user), ..self }
    }

    /// Drop privileges to `group`.
    pub fn group(self, group: Group) -> (r: Self)
        ensures
            r@ =~= (DaemonizeV { group: Some(group@), ..self@ }),
    {
        Daemonize { group: Some(group), ..self }
    }

    /// Change the umask to `mask`; 0o027 if never called.
    pub fn umask(self, mask: u32) -> (r: Self)
        ensures
            r@ =~= (DaemonizeV { umask: mask, ..self@ }),
    {
        Daemonize { umask: mask, ..self }
    }

    /// Change the root directory to `path`.
    pub fn chroot(self, path: String) -> (r: Self)
        ensures
            r@ =~= (DaemonizeV { root: Some(path@), ..self@ }),
    {
        Daemonize { root: Some(path), ..self }
    }

    /// The choice for the daemon's standard output stream.
    pub fn stdout(self, stdio: Stdio) -> (r: Self)
        ensures
            r@ =~= (DaemonizeV { stdout: stdio.target, ..self@ }),
    {
        Daemonize { stdout: stdio, ..self }
    }

    /// The choice for the daemon's standard error stream.
    pub fn stderr(self, stdio: Stdio) -> (r: Self)
        ensures
            r@ =~= (DaemonizeV { stderr: stdio.target, ..self@ }),
    {
        Daemonize { stderr: stdio, ..self }
    }

    /// The choice for the daemon's standard input stream.
    pub fn stdin(self, stdio: Stdio) -> (r: Self)
        ensures
            r@ =~= (DaemonizeV { stdin: stdio.target, ..self@ }),
    {
        Daemonize { stdin: stdio, ..self }
    }
}

impl Default for Daemonize {
    fn default() -> (r: Self)
        ensures
            r@.directory == "/"@,
            r@.pid_file is None,
            r@.chown_pid_file == false,
            r@.user is None,
            r@.group is None,
            r@.umask == 0o027u32,
            r@.root is None,
            r@.stdin == StdioTarget::Devnull,
            r@.stdout == StdioTarget::Devnull,
            r@.stderr == StdioTarget::Devnull,
    {
        Daemonize::new()
    }
}

} // verus!
