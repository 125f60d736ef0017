use daemonize::config::{StdioTarget, UserImpl};
use daemonize::{Daemonize, Group, Stdio, User};

#[test]
fn defaults() {
    let d = Daemonize::new();
    assert_eq!(d.directory, "/");
    assert!(d.pid_file.is_none());
    assert!(!d.chown_pid_file);
    assert!(d.user.is_none());
    assert!(d.group.is_none());
    assert_eq!(d.umask, 0o027);
    assert!(d.root.is_none());
    assert_eq!(d.stdin.target, StdioTarget::Devnull);
    assert_eq!(d.stdout.target, StdioTarget::Devnull);
    assert_eq!(d.stderr.target, StdioTarget::Devnull);
}

#[test]
fn default_trait_matches_new() {
    let d = Daemonize::default();
    assert_eq!(d.directory, "/");
    assert_eq!(d.umask, 0o027);
}

#[test]
fn setters_record_choices() {
    let d = Daemonize::new()
        .pid_file(String::from("/tmp/test.pid"))
        .chown_pid_file(true)
        .working_directory(String::from("/tmp"))
        .user(User::from(String::from("nobody")))
        .group(Group::from(2u32))
        .umask(0o777)
        .chroot(String::from("/jail"))
        .stdout(Stdio::from(5))
        .stderr(Stdio::from(6));
    assert_eq!(d.pid_file.as_deref(), Some("/tmp/test.pid"));
    assert!(d.chown_pid_file);
    assert_eq!(d.directory, "/tmp");
    assert!(matches!(
        d.user.as_ref().unwrap().inner,
        UserImpl::Name(ref n) if n == "nobody"
    ));
    assert_eq!(d.umask, 0o777);
    assert_eq!(d.root.as_deref(), Some("/jail"));
    assert_eq!(d.stdout.target, StdioTarget::RedirectToFile(5));
    assert_eq!(d.stderr.target, StdioTarget::RedirectToFile(6));
    assert_eq!(d.stdin.target, StdioTarget::Devnull);
}

#[test]
fn user_group_from_id() {
    let u = User::from(1000u32);
    assert!(matches!(u.inner, UserImpl::Id(1000)));
    let g = Group::from(String::from("daemon"));
    assert!(matches!(
        g.inner,
        daemonize::config::GroupImpl::Name(ref n) if n == "daemon"
    ));
}

#[test]
fn stdio_devnull() {
    assert_eq!(Stdio::devnull().target, StdioTarget::Devnull);
}
