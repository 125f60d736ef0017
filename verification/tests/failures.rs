use daemonize::engine::{Action, Engine, Event, Step};
use daemonize::{Daemonize, ErrorKind, Group, User};

fn drive(engine: &mut Engine, ev: Event) -> Step {
    assert!(engine.accepts_event(ev));
    engine.step(ev)
}

/// Drives a pid-file configuration up to the step named by `stop_after`
/// successful transitions, then returns the engine and the pending step.
fn pid_file_prefix(stop_after: usize) -> (Engine, Step) {
    let (mut engine, mut step) = Daemonize::new()
        .pid_file(String::from("/tmp/daemon-fail.pid"))
        .start();
    let events = [
        Event::OpenedFd { fd: 3 },
        Event::GotFlags { flags: 0 },
        Event::Succeeded,
        Event::Succeeded,
    ];
    for ev in events.iter().take(stop_after) {
        step = drive(&mut engine, *ev);
    }
    (engine, step)
}

#[test]
fn open_pidfile_failure() {
    let (mut engine, _) = pid_file_prefix(0);
    let step = drive(&mut engine, Event::Failed { errno: 13 });
    assert_eq!(step, Step::Fail(ErrorKind::OpenPidfile(13)));
}

#[test]
fn get_pidfile_flags_failure() {
    let (mut engine, _) = pid_file_prefix(1);
    let step = drive(&mut engine, Event::Failed { errno: 9 });
    assert_eq!(step, Step::Fail(ErrorKind::GetPidfileFlags(9)));
}

#[test]
fn set_pidfile_flags_failure() {
    let (mut engine, _) = pid_file_prefix(2);
    let step = drive(&mut engine, Event::Failed { errno: 9 });
    assert_eq!(step, Step::Fail(ErrorKind::SetPidfileFlags(9)));
}

#[test]
fn lock_pidfile_failure() {
    let (mut engine, step) = pid_file_prefix(3);
    assert!(matches!(step, Step::Run(Action::LockPidFile { .. })));
    let step = drive(&mut engine, Event::Failed { errno: 11 });
    assert_eq!(step, Step::Fail(ErrorKind::LockPidfile(11)));
}

#[test]
fn fork_failure() {
    let (mut engine, first) = Daemonize::new().start();
    assert!(matches!(first, Step::Run(Action::ForkProcess { first: true })));
    let step = drive(&mut engine, Event::Failed { errno: 12 });
    assert_eq!(step, Step::Fail(ErrorKind::Fork(12)));
}

#[test]
fn change_directory_failure() {
    let (mut engine, _) = Daemonize::new().start();
    drive(&mut engine, Event::ForkedChild);
    let step = drive(&mut engine, Event::Failed { errno: 2 });
    assert_eq!(step, Step::Fail(ErrorKind::ChangeDirectory(2)));
}

#[test]
fn detach_session_failure() {
    let (mut engine, _) = Daemonize::new().start();
    drive(&mut engine, Event::ForkedChild);
    drive(&mut engine, Event::Succeeded);
    let step = drive(&mut engine, Event::Failed { errno: 1 });
    assert_eq!(step, Step::Fail(ErrorKind::DetachSession(1)));
}

#[test]
fn second_fork_failure() {
    let (mut engine, _) = Daemonize::new().start();
    drive(&mut engine, Event::ForkedChild);
    drive(&mut engine, Event::Succeeded);
    drive(&mut engine, Event::Succeeded);
    let step = drive(&mut engine, Event::Succeeded);
    assert!(matches!(step, Step::Run(Action::ForkProcess { first: false })));
    let step = drive(&mut engine, Event::Failed { errno: 12 });
    assert_eq!(step, Step::Fail(ErrorKind::Fork(12)));
}

/// Drives a default configuration to the step after the second fork.
fn to_devnull_open(engine: &mut Engine) -> Step {
    drive(engine, Event::ForkedChild);
    drive(engine, Event::Succeeded);
    drive(engine, Event::Succeeded);
    drive(engine, Event::Succeeded);
    drive(engine, Event::ForkedChild)
}

#[test]
fn open_devnull_failure() {
    let (mut engine, _) = Daemonize::new().start();
    let step = to_devnull_open(&mut engine);
    assert_eq!(step, Step::Run(Action::OpenDevnull));
    let step = drive(&mut engine, Event::Failed { errno: 24 });
    assert_eq!(step, Step::Fail(ErrorKind::OpenDevnull(24)));
}

#[test]
fn redirect_streams_failure() {
    let (mut engine, _) = Daemonize::new().start();
    to_devnull_open(&mut engine);
    drive(&mut engine, Event::OpenedFd { fd: 9 });
    let step = drive(&mut engine, Event::Failed { errno: 9 });
    assert_eq!(step, Step::Fail(ErrorKind::RedirectStreams(9)));
}

#[test]
fn close_devnull_failure() {
    let (mut engine, _) = Daemonize::new().start();
    to_devnull_open(&mut engine);
    drive(&mut engine, Event::OpenedFd { fd: 9 });
    drive(&mut engine, Event::Succeeded);
    drive(&mut engine, Event::Succeeded);
    let step = drive(&mut engine, Event::Succeeded);
    assert!(matches!(step, Step::Run(Action::CloseDevnull { fd: 9 })));
    let step = drive(&mut engine, Event::Failed { errno: 9 });
    assert_eq!(step, Step::Fail(ErrorKind::CloseDevnull(9)));
}

/// Drives a configuration through detachment and redirection; the step
/// after the close of the null device is the entry into resolution.
fn to_resolution(engine: &mut Engine) -> Step {
    to_devnull_open(engine);
    drive(engine, Event::OpenedFd { fd: 9 });
    drive(engine, Event::Succeeded);
    drive(engine, Event::Succeeded);
    drive(engine, Event::Succeeded);
    drive(engine, Event::Succeeded)
}

#[test]
fn pid_path_with_nul_is_rejected_at_once() {
    let (engine, first) = Daemonize::new()
        .pid_file(String::from("bad\0path"))
        .start();
    assert_eq!(first, Step::Fail(ErrorKind::PathContainsNul));
    assert!(!engine.accepts_event(Event::Succeeded));
}

#[test]
fn user_name_with_nul() {
    let (mut engine, _) = Daemonize::new()
        .user(User::from(String::from("no\0body")))
        .start();
    let step = to_resolution(&mut engine);
    assert_eq!(step, Step::Fail(ErrorKind::UserContainsNul));
}

#[test]
fn group_name_with_nul() {
    let (mut engine, _) = Daemonize::new()
        .group(Group::from(String::from("no\0group")))
        .start();
    let step = to_resolution(&mut engine);
    assert_eq!(step, Step::Fail(ErrorKind::GroupContainsNul));
}

#[test]
fn user_not_found() {
    let (mut engine, _) = Daemonize::new()
        .user(User::from(String::from("no-such-user")))
        .start();
    let step = to_resolution(&mut engine);
    assert!(matches!(step, Step::Run(Action::LookupUser { .. })));
    // The system database indeed knows no such user: the lookup the
    // driver would perform comes back empty.
    assert_eq!(daemonize::lookup::get_uid_by_name("no-such-user"), None);
    let step = drive(&mut engine, Event::NoSuchId);
    assert_eq!(step, Step::Fail(ErrorKind::UserNotFound));
}

#[test]
fn group_not_found() {
    let (mut engine, _) = Daemonize::new()
        .group(Group::from(String::from("no-such-group")))
        .start();
    let step = to_resolution(&mut engine);
    assert!(matches!(step, Step::Run(Action::LookupGroup { .. })));
    assert_eq!(daemonize::lookup::get_gid_by_name("no-such-group"), None);
    let step = drive(&mut engine, Event::NoSuchId);
    assert_eq!(step, Step::Fail(ErrorKind::GroupNotFound));
}

#[test]
fn chown_pidfile_failure() {
    let (mut engine, _) = Daemonize::new()
        .pid_file(String::from("/tmp/daemon-chown-fail.pid"))
        .chown_pid_file(true)
        .user(User::from(1000u32))
        .start();
    drive(&mut engine, Event::OpenedFd { fd: 3 });
    drive(&mut engine, Event::GotFlags { flags: 0 });
    drive(&mut engine, Event::Succeeded);
    drive(&mut engine, Event::Succeeded);
    let step = to_resolution(&mut engine);
    assert!(matches!(step, Step::Run(Action::ChownPidFile { .. })));
    let step = drive(&mut engine, Event::Failed { errno: 1 });
    assert_eq!(step, Step::Fail(ErrorKind::ChownPidfile(1)));
}

#[test]
fn chroot_path_with_nul() {
    let (mut engine, _) = Daemonize::new()
        .chroot(String::from("bad\0jail"))
        .start();
    let step = to_resolution(&mut engine);
    assert_eq!(step, Step::Run(Action::RunPrivilegedAction));
    let step = drive(&mut engine, Event::Succeeded);
    assert_eq!(step, Step::Fail(ErrorKind::PathContainsNul));
}

#[test]
fn chroot_failure() {
    let (mut engine, _) = Daemonize::new()
        .chroot(String::from("/jail"))
        .start();
    let step = to_resolution(&mut engine);
    assert_eq!(step, Step::Run(Action::RunPrivilegedAction));
    drive(&mut engine, Event::Succeeded);
    let step = drive(&mut engine, Event::Failed { errno: 1 });
    assert_eq!(step, Step::Fail(ErrorKind::Chroot(1)));
}

#[test]
fn set_group_failure() {
    let (mut engine, _) = Daemonize::new().group(Group::from(27u32)).start();
    let step = to_resolution(&mut engine);
    assert_eq!(step, Step::Run(Action::RunPrivilegedAction));
    let step = drive(&mut engine, Event::Succeeded);
    assert_eq!(step, Step::Run(Action::SetGroupId { gid: 27 }));
    let step = drive(&mut engine, Event::Failed { errno: 1 });
    assert_eq!(step, Step::Fail(ErrorKind::SetGroup(1)));
}

#[test]
fn set_user_failure() {
    let (mut engine, _) = Daemonize::new().user(User::from(1000u32)).start();
    let step = to_resolution(&mut engine);
    assert_eq!(step, Step::Run(Action::RunPrivilegedAction));
    let step = drive(&mut engine, Event::Succeeded);
    assert_eq!(step, Step::Run(Action::SetUserId { uid: 1000 }));
    let step = drive(&mut engine, Event::Failed { errno: 1 });
    assert_eq!(step, Step::Fail(ErrorKind::SetUser(1)));
}

#[test]
fn truncate_failure_is_write_pid() {
    let (mut engine, _) = Daemonize::new()
        .pid_file(String::from("/tmp/daemon-trunc.pid"))
        .start();
    drive(&mut engine, Event::OpenedFd { fd: 3 });
    drive(&mut engine, Event::GotFlags { flags: 0 });
    drive(&mut engine, Event::Succeeded);
    drive(&mut engine, Event::Succeeded);
    let step = to_resolution(&mut engine);
    assert_eq!(step, Step::Run(Action::RunPrivilegedAction));
    let step = drive(&mut engine, Event::Succeeded);
    assert_eq!(step, Step::Run(Action::GetProcessId));
    let step = drive(&mut engine, Event::GotPid { pid: 77 });
    assert!(matches!(step, Step::Run(Action::TruncatePidFile { fd: 3 })));
    let step = drive(&mut engine, Event::Failed { errno: 5 });
    // The truncate's error code is not carried: any failure while
    // writing the pid is the bare WritePid.
    assert_eq!(step, Step::Fail(ErrorKind::WritePid));
}

#[test]
fn short_write_is_write_pid() {
    let (mut engine, _) = Daemonize::new()
        .pid_file(String::from("/tmp/daemon-short.pid"))
        .start();
    drive(&mut engine, Event::OpenedFd { fd: 3 });
    drive(&mut engine, Event::GotFlags { flags: 0 });
    drive(&mut engine, Event::Succeeded);
    drive(&mut engine, Event::Succeeded);
    let step = to_resolution(&mut engine);
    assert_eq!(step, Step::Run(Action::RunPrivilegedAction));
    drive(&mut engine, Event::Succeeded);
    drive(&mut engine, Event::GotPid { pid: 77 });
    let step = drive(&mut engine, Event::Succeeded);
    assert!(matches!(step, Step::Run(Action::WritePidFile { .. })));
    let step = drive(&mut engine, Event::Failed { errno: 0 });
    assert_eq!(step, Step::Fail(ErrorKind::WritePid));
}
