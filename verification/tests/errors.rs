use daemonize::{Error, ErrorKind};

#[test]
fn description_phrases() {
    assert_eq!(ErrorKind::Fork(1).description(), "unable to fork");
    assert_eq!(
        ErrorKind::DetachSession(1).description(),
        "unable to create new session"
    );
    assert_eq!(
        ErrorKind::GroupNotFound.description(),
        "unable to resolve group name to group id"
    );
    assert_eq!(
        ErrorKind::GroupContainsNul.description(),
        "group option contains NUL"
    );
    assert_eq!(ErrorKind::SetGroup(1).description(), "unable to set group");
    assert_eq!(
        ErrorKind::UserNotFound.description(),
        "unable to resolve user name to user id"
    );
    assert_eq!(
        ErrorKind::UserContainsNul.description(),
        "user option contains NUL"
    );
    assert_eq!(ErrorKind::SetUser(1).description(), "unable to set user");
    assert_eq!(
        ErrorKind::ChangeDirectory(1).description(),
        "unable to change directory"
    );
    assert_eq!(
        ErrorKind::PathContainsNul.description(),
        "pid_file option contains NUL"
    );
    assert_eq!(
        ErrorKind::OpenPidfile(1).description(),
        "unable to open pid file"
    );
    assert_eq!(
        ErrorKind::GetPidfileFlags(1).description(),
        "unable get pid file flags"
    );
    assert_eq!(
        ErrorKind::SetPidfileFlags(1).description(),
        "unable set pid file flags"
    );
    assert_eq!(
        ErrorKind::LockPidfile(1).description(),
        "unable to lock pid file"
    );
    assert_eq!(
        ErrorKind::ChownPidfile(1).description(),
        "unable to chown pid file"
    );
    assert_eq!(
        ErrorKind::OpenDevnull(1).description(),
        "unable to open /dev/null"
    );
    assert_eq!(
        ErrorKind::RedirectStreams(1).description(),
        "unable to redirect standard streams to /dev/null"
    );
    assert_eq!(
        ErrorKind::CloseDevnull(1).description(),
        "unable to close /dev/null"
    );
    assert_eq!(
        ErrorKind::WritePid.description(),
        "unable to write self pid to pid file"
    );
    assert_eq!(
        ErrorKind::Chroot(1).description(),
        "unable to chroot into directory"
    );
}

#[test]
fn errno_carried() {
    assert_eq!(ErrorKind::Fork(9).errno(), Some(9));
    assert_eq!(ErrorKind::LockPidfile(11).errno(), Some(11));
    assert_eq!(ErrorKind::WritePid.errno(), None);
    assert_eq!(ErrorKind::UserNotFound.errno(), None);
    assert_eq!(ErrorKind::GroupContainsNul.errno(), None);
    assert_eq!(ErrorKind::PathContainsNul.errno(), None);
}

#[test]
fn message_with_errno() {
    assert_eq!(ErrorKind::Fork(9).message(), "unable to fork, errno 9");
    assert_eq!(
        ErrorKind::LockPidfile(11).message(),
        "unable to lock pid file, errno 11"
    );
}

#[test]
fn message_without_errno() {
    assert_eq!(
        ErrorKind::WritePid.message(),
        "unable to write self pid to pid file"
    );
    assert_eq!(
        ErrorKind::UserNotFound.message(),
        "unable to resolve user name to user id"
    );
}

#[test]
fn error_from_kind() {
    let e = Error::from(ErrorKind::Chroot(13));
    assert_eq!(e.kind, ErrorKind::Chroot(13));
    assert_eq!(e.message(), "unable to chroot into directory, errno 13");
}
