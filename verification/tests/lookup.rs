use daemonize::lookup::{get_gid_by_name, get_uid_by_name};
use daemonize::usergroup::UserGroup;

#[test]
fn ffi_test_get_uid_by_name() {
    let uid = get_uid_by_name("nobody");
    assert_eq!(uid, Some(65534));
}

#[test]
fn ffi_test_get_gid_by_name() {
    let gid = get_gid_by_name("nogroup");
    assert_eq!(gid, Some(65534));
}

#[test]
fn lookup_unknown_names() {
    assert_eq!(get_uid_by_name("definitely-no-such-user"), None);
    assert_eq!(get_gid_by_name("definitely-no-such-group"), None);
}

#[test]
fn lookup_name_with_nul() {
    assert_eq!(get_uid_by_name("no\0body"), None);
    assert_eq!(get_gid_by_name("no\0group"), None);
}

#[test]
fn current_user_group() {
    // Whether the invoking identity has database entries depends on the
    // environment; the result is either both names or the error naming
    // the side that failed, user first.
    match UserGroup::get() {
        Ok(ug) => {
            assert!(ug.user.is_some());
            assert!(ug.group.is_some());
        }
        Err(k) => assert!(matches!(
            k,
            daemonize::ErrorKind::UserNotFound | daemonize::ErrorKind::GroupNotFound
        )),
    }
}

#[test]
fn usergroup_default_is_empty() {
    let ug = UserGroup::default();
    assert!(ug.user.is_none());
    assert!(ug.group.is_none());
}
