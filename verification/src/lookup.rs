//! The external name-service lookups: the one capability the library
//! consumes from the OS identity subsystem rather than implementing. Each
//! call's result depends on the system's user and group databases, so the
//! contracts only state what holds of every outcome.

use vstd::prelude::*;

use crate::config::contains_nul;

verus! {

/// Resolves a user name to its numeric id through the system user
/// database; nothing when the name is unknown.
///
/// Relies on users::get_user_by_name (and User::uid): a name holding a
/// NUL byte matches no user and yields nothing.
#[verifier::external_body]
pub fn get_uid_by_name(name: &str) -> (r: Option<u32>)
    ensures
        contains_nul(name@) ==> r is None,
{
    users::get_user_by_name(name).map(|u| u.uid())
}

/// Resolves a group name to its numeric id through the system group
/// database; nothing when the name is unknown.
///
/// Relies on users::get_group_by_name (and Group::gid): a name holding a
/// NUL byte matches no group and yields nothing.
#[verifier::external_body]
pub fn get_gid_by_name(name: &str) -> (r: Option<u32>)
    ensures
        contains_nul(name@) ==> r is None,
{
    users::get_group_by_name(name).map(|g| g.gid())
}

/// The name of the user running the process, where the user database
/// knows one and the name is UTF-8.
///
/// Relies on users::get_current_username: the name recorded for the
/// current uid, if any.
#[verifier::external_body]
pub fn current_user_name() -> (r: Option<String>) {
    users::get_current_username().and_then(|s| s.into_string().ok())
}

/// The name of the group running the process, where the group database
/// knows one and the name is UTF-8.
///
/// Relies on users::get_current_groupname: the name recorded for the
/// current gid, if any.
#[verifier::external_body]
pub fn current_group_name() -> (r: Option<String>) {
    users::get_current_groupname().and_then(|s| s.into_string().ok())
}

} // verus!
