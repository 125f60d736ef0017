//! The identity of the invoking user: a configuration convenience that
//! names the current user and group, for callers that want to keep the
//! identity they were started under.

use vstd::prelude::*;

use crate::config::{Group, GroupV, User, UserV};
use crate::error::ErrorKind;
use crate::lookup::{current_group_name, current_user_name};

verus! {

/// The current user and group, as resolvable choices for the builder.
pub struct UserGroup {
    pub user: Option<User>,
    pub group: Option<Group>,
}

impl UserGroup {
    /// The names of the user and group running the process. Fails with
    /// `UserNotFound` when the user database gives no usable name for
    /// the current uid, and with `GroupNotFound` for the gid — the user
    /// side is consulted first.
    pub fn get() -> (r: Result<UserGroup, ErrorKind>)
        ensures
            match r {
                Ok(ug) => (match ug.user {
                    Some(u) => u@ is Name,
                    None => false,
                }) && (match ug.group {
                    Some(g) => g@ is Name,
                    None => false,
                }),
                Err(k) => k == ErrorKind::UserNotFound || k == ErrorKind::GroupNotFound,
            },
    {
        let user_name = match current_user_name() {
            Some(s) => s,
            None => {
                return Err(ErrorKind::UserNotFound);
            },
        };
        let group_name = match current_group_name() {
            Some(s) => s,
            None => {
                return Err(ErrorKind::GroupNotFound);
            },
        };
        Ok(
            UserGroup {
                user: Some(User::from(user_name)),
                group: Some(Group::from(group_name)),
            },
        )
    }
}

impl Default for UserGroup {
    /// No user and no group chosen.
    fn default() -> (r: Self)
        ensures
            r.user is None,
            r.group is None,
    {
        UserGroup { user: None, group: None }
    }
}

} // verus!
