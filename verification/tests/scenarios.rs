use daemonize::engine::{Action, Engine, Event, Phase, Step, UNCHANGED_ID};
use daemonize::{Daemonize, Group, Stdio, User};

fn drive(engine: &mut Engine, ev: Event) -> Step {
    assert!(engine.accepts_event(ev));
    engine.step(ev)
}

/// Drives an engine through the whole detachment prefix — pid-file
/// opening and locking if one is configured, the two forks, directory
/// change, session, umask, and the stream redirection — and returns the
/// step that follows the close of the null device.
fn detach_through_streams(engine: &mut Engine, first: Step, devnull_fd: i32) -> Step {
    let mut step = first;
    if let Step::Run(Action::OpenPidFile { .. }) = step {
        step = drive(engine, Event::OpenedFd { fd: 3 });
        assert!(matches!(step, Step::Run(Action::GetPidFileFlags { fd: 3 })));
        step = drive(engine, Event::GotFlags { flags: 0 });
        assert!(matches!(
            step,
            Step::Run(Action::SetPidFileFlags { fd: 3, flags: 1 })
        ));
        step = drive(engine, Event::Succeeded);
        assert!(matches!(step, Step::Run(Action::LockPidFile { fd: 3 })));
        step = drive(engine, Event::Succeeded);
    }
    assert!(matches!(step, Step::Run(Action::ForkProcess { first: true })));
    step = drive(engine, Event::ForkedChild);
    assert!(matches!(step, Step::Run(Action::ChangeDirectory { .. })));
    step = drive(engine, Event::Succeeded);
    assert!(matches!(step, Step::Run(Action::CreateSession)));
    step = drive(engine, Event::Succeeded);
    assert!(matches!(step, Step::Run(Action::SetUmask { .. })));
    step = drive(engine, Event::Succeeded);
    assert!(matches!(
        step,
        Step::Run(Action::ForkProcess { first: false })
    ));
    step = drive(engine, Event::ForkedChild);
    assert!(matches!(step, Step::Run(Action::OpenDevnull)));
    step = drive(engine, Event::OpenedFd { fd: devnull_fd });
    assert!(matches!(
        step,
        Step::Run(Action::RedirectStream { target: 0, .. })
    ));
    step = drive(engine, Event::Succeeded);
    assert!(matches!(
        step,
        Step::Run(Action::RedirectStream { target: 1, .. })
    ));
    step = drive(engine, Event::Succeeded);
    assert!(matches!(
        step,
        Step::Run(Action::RedirectStream { target: 2, .. })
    ));
    step = drive(engine, Event::Succeeded);
    assert!(matches!(step, Step::Run(Action::CloseDevnull { .. })));
    drive(engine, Event::Succeeded)
}

#[test]
fn simple() {
    let (mut engine, first) = Daemonize::new().start();
    let step = detach_through_streams(&mut engine, first, 9);
    // No identities, no ownership change: straight to the privileged
    // action, and with no pid file the sequence completes right after.
    assert_eq!(step, Step::Run(Action::RunPrivilegedAction));
    let step = drive(&mut engine, Event::Succeeded);
    assert_eq!(step, Step::Done);
    assert_eq!(engine.phase(), Phase::Finished);
    assert!(!engine.accepts_event(Event::Succeeded));
}

#[test]
fn two_runs_without_pid_file_both_succeed() {
    // Without a pid file the two sequences share no state: each engine
    // completes regardless of the other, and neither ever asks for a
    // pid-file operation.
    let (mut a, first_a) = Daemonize::new().start();
    let (mut b, first_b) = Daemonize::new().start();
    let step_a = detach_through_streams(&mut a, first_a, 9);
    let step_b = detach_through_streams(&mut b, first_b, 9);
    assert_eq!(step_a, Step::Run(Action::RunPrivilegedAction));
    assert_eq!(step_b, Step::Run(Action::RunPrivilegedAction));
    assert_eq!(drive(&mut a, Event::Succeeded), Step::Done);
    assert_eq!(drive(&mut b, Event::Succeeded), Step::Done);
}

#[test]
fn chdir() {
    let (mut engine, first) = Daemonize::new()
        .working_directory(String::from("/usr"))
        .start();
    assert!(matches!(first, Step::Run(Action::ForkProcess { first: true })));
    let step = drive(&mut engine, Event::ForkedChild);
    match step {
        Step::Run(Action::ChangeDirectory { path }) => assert_eq!(path, "/usr"),
        other => panic!("expected the directory change, got {:?}", other),
    }
}

#[test]
fn default_directory_is_root() {
    let (mut engine, first) = Daemonize::new().start();
    assert!(matches!(first, Step::Run(Action::ForkProcess { first: true })));
    let step = drive(&mut engine, Event::ForkedChild);
    match step {
        Step::Run(Action::ChangeDirectory { path }) => assert_eq!(path, "/"),
        other => panic!("expected the directory change, got {:?}", other),
    }
}

#[test]
fn umask() {
    let (mut engine, first) = Daemonize::new().umask(0o222).start();
    assert!(matches!(first, Step::Run(Action::ForkProcess { first: true })));
    drive(&mut engine, Event::ForkedChild);
    drive(&mut engine, Event::Succeeded);
    let step = drive(&mut engine, Event::Succeeded);
    assert_eq!(step, Step::Run(Action::SetUmask { mask: 0o222 }));
}

#[test]
fn pid() {
    let (mut engine, first) = Daemonize::new()
        .pid_file(String::from("/tmp/daemon-test.pid"))
        .start();
    match &first {
        Step::Run(Action::OpenPidFile { path }) => assert_eq!(path, "/tmp/daemon-test.pid"),
        other => panic!("expected the pid-file open, got {:?}", other),
    }
    let step = detach_through_streams(&mut engine, first, 9);
    assert_eq!(step, Step::Run(Action::RunPrivilegedAction));
    let step = drive(&mut engine, Event::Succeeded);
    assert_eq!(step, Step::Run(Action::GetProcessId));
    let step = drive(&mut engine, Event::GotPid { pid: 4242 });
    assert_eq!(step, Step::Run(Action::TruncatePidFile { fd: 3 }));
    let step = drive(&mut engine, Event::Succeeded);
    match step {
        Step::Run(Action::WritePidFile { fd, text }) => {
            assert_eq!(fd, 3);
            // The decimal pid, no trailing newline: what a reader of the
            // pid file parses back is exactly the daemon's pid.
            assert_eq!(text, "4242");
            assert_eq!(daemonize::numfmt::parse_decimal(&text), Some(4242));
        }
        other => panic!("expected the pid-file write, got {:?}", other),
    }
    let step = drive(&mut engine, Event::Succeeded);
    assert_eq!(step, Step::Done);
}

#[test]
fn redirect_stream() {
    let (mut engine, first) = Daemonize::new()
        .stdout(Stdio::from(5))
        .stderr(Stdio::from(6))
        .start();
    let mut step = first;
    for _ in 0..4 {
        step = drive(
            &mut engine,
            match step {
                Step::Run(Action::ForkProcess { .. }) => Event::ForkedChild,
                _ => Event::Succeeded,
            },
        );
    }
    assert!(matches!(step, Step::Run(Action::ForkProcess { first: false })));
    step = drive(&mut engine, Event::ForkedChild);
    assert_eq!(step, Step::Run(Action::OpenDevnull));
    step = drive(&mut engine, Event::OpenedFd { fd: 9 });
    // stdin was not redirected: it is discarded into the null device.
    assert_eq!(
        step,
        Step::Run(Action::RedirectStream { source: 9, target: 0 })
    );
    step = drive(&mut engine, Event::Succeeded);
    assert_eq!(
        step,
        Step::Run(Action::RedirectStream { source: 5, target: 1 })
    );
    step = drive(&mut engine, Event::Succeeded);
    assert_eq!(
        step,
        Step::Run(Action::RedirectStream { source: 6, target: 2 })
    );
    step = drive(&mut engine, Event::Succeeded);
    assert_eq!(step, Step::Run(Action::CloseDevnull { fd: 9 }));
}

#[test]
fn double_run() {
    // First instance: takes the lock and forks.
    let (mut first_engine, first) = Daemonize::new()
        .pid_file(String::from("/tmp/daemon-double.pid"))
        .start();
    assert!(matches!(first, Step::Run(Action::OpenPidFile { .. })));
    drive(&mut first_engine, Event::OpenedFd { fd: 3 });
    drive(&mut first_engine, Event::GotFlags { flags: 0 });
    let step = drive(&mut first_engine, Event::Succeeded);
    assert!(matches!(step, Step::Run(Action::LockPidFile { fd: 3 })));
    let step = drive(&mut first_engine, Event::Succeeded);
    assert!(matches!(step, Step::Run(Action::ForkProcess { first: true })));

    // Second instance at the same path: the non-blocking lock fails and
    // the sequence stops before any fork was asked for.
    let (mut second_engine, second) = Daemonize::new()
        .pid_file(String::from("/tmp/daemon-double.pid"))
        .start();
    assert!(matches!(second, Step::Run(Action::OpenPidFile { .. })));
    drive(&mut second_engine, Event::OpenedFd { fd: 4 });
    drive(&mut second_engine, Event::GotFlags { flags: 0 });
    let step = drive(&mut second_engine, Event::Succeeded);
    assert!(matches!(step, Step::Run(Action::LockPidFile { fd: 4 })));
    // A fork is not an admissible answer to the lock request: the engine
    // only ever forks once the lock attempt has come back.
    assert!(!second_engine.accepts_event(Event::ForkedChild));
    let step = drive(&mut second_engine, Event::Failed { errno: 11 });
    assert_eq!(
        step,
        Step::Fail(daemonize::ErrorKind::LockPidfile(11))
    );
    assert_eq!(second_engine.phase(), Phase::Failed);
    assert!(!second_engine.accepts_event(Event::Succeeded));
}

#[test]
fn uid_gid_resolution() {
    let (mut engine, first) = Daemonize::new()
        .user(User::from(String::from("nobody")))
        .group(Group::from(String::from("daemon")))
        .start();
    let step = detach_through_streams(&mut engine, first, 9);
    let user_id = match step {
        Step::Run(Action::LookupUser { ref name }) => {
            assert_eq!(name, "nobody");
            daemonize::lookup::get_uid_by_name(name).expect("the user database knows nobody")
        }
        other => panic!("expected the user lookup, got {:?}", other),
    };
    assert_eq!(user_id, 65534);
    let step = drive(&mut engine, Event::FoundId { id: user_id });
    let group_id = match step {
        Step::Run(Action::LookupGroup { ref name }) => {
            assert_eq!(name, "daemon");
            daemonize::lookup::get_gid_by_name(name).expect("the group database knows daemon")
        }
        other => panic!("expected the group lookup, got {:?}", other),
    };
    let step = drive(&mut engine, Event::FoundId { id: group_id });
    assert_eq!(step, Step::Run(Action::RunPrivilegedAction));
    let step = drive(&mut engine, Event::Succeeded);
    // Group is dropped before user.
    assert_eq!(step, Step::Run(Action::SetGroupId { gid: group_id }));
    let step = drive(&mut engine, Event::Succeeded);
    assert_eq!(step, Step::Run(Action::SetUserId { uid: user_id }));
    let step = drive(&mut engine, Event::Succeeded);
    assert_eq!(step, Step::Done);
}

#[test]
fn chown_ids_cached() {
    let (mut engine, first) = Daemonize::new()
        .pid_file(String::from("/tmp/daemon-chown.pid"))
        .chown_pid_file(true)
        .user(User::from(1000u32))
        .group(Group::from(27u32))
        .start();
    let step = detach_through_streams(&mut engine, first, 9);
    // The ownership change and the later drops carry the same ids.
    match step {
        Step::Run(Action::ChownPidFile { path, uid, gid }) => {
            assert_eq!(path, "/tmp/daemon-chown.pid");
            assert_eq!(uid, 1000);
            assert_eq!(gid, 27);
        }
        other => panic!("expected the ownership change, got {:?}", other),
    }
    let step = drive(&mut engine, Event::Succeeded);
    assert_eq!(step, Step::Run(Action::RunPrivilegedAction));
    let step = drive(&mut engine, Event::Succeeded);
    assert_eq!(step, Step::Run(Action::SetGroupId { gid: 27 }));
    let step = drive(&mut engine, Event::Succeeded);
    assert_eq!(step, Step::Run(Action::SetUserId { uid: 1000 }));
}

#[test]
fn chown_one_sided_uses_sentinel() {
    let (mut engine, first) = Daemonize::new()
        .pid_file(String::from("/tmp/daemon-chown-one.pid"))
        .chown_pid_file(true)
        .user(User::from(1000u32))
        .start();
    let step = detach_through_streams(&mut engine, first, 9);
    // Only the user side was configured: the group side carries the
    // leave-unchanged id.
    match step {
        Step::Run(Action::ChownPidFile { uid, gid, .. }) => {
            assert_eq!(uid, 1000);
            assert_eq!(gid, UNCHANGED_ID);
        }
        other => panic!("expected the ownership change, got {:?}", other),
    }
}

#[test]
fn chown_without_identities_is_skipped() {
    let (mut engine, first) = Daemonize::new()
        .pid_file(String::from("/tmp/daemon-chown-none.pid"))
        .chown_pid_file(true)
        .start();
    let step = detach_through_streams(&mut engine, first, 9);
    assert_eq!(step, Step::Run(Action::RunPrivilegedAction));
}

#[test]
fn chroot_after_privileged_action() {
    let (mut engine, first) = Daemonize::new()
        .chroot(String::from("/jail"))
        .start();
    let step = detach_through_streams(&mut engine, first, 9);
    assert_eq!(step, Step::Run(Action::RunPrivilegedAction));
    let step = drive(&mut engine, Event::Succeeded);
    match step {
        Step::Run(Action::ChangeRoot { path }) => assert_eq!(path, "/jail"),
        other => panic!("expected the root change, got {:?}", other),
    }
    let step = drive(&mut engine, Event::Succeeded);
    assert_eq!(step, Step::Done);
}
