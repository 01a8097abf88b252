//! Who a session belongs to, and what they may do.

pub mod endpoints;
pub mod permission;

pub use self::endpoints::{CreateGroupBody, PutGroupBody};
pub use self::permission::{
    Group, GroupQueryString, Permission, PermissionRejection, RequirePermission, UserPermissions,
    UserPermissionsQueryString,
};

use crate::resources::Role;
use vstd::prelude::*;

verus! {

/// The snapshot of an authenticated user that a session carries.
#[derive(Debug, PartialEq, Eq)]
pub struct AuthUser {
    pub id: i32,
    pub username: String,
    pub hash: String,
    pub permissions: Vec<Permission>,
    pub role: Role,
    pub groups: Vec<String>,
}

/// An [`AuthUser`] as a value.
pub struct AuthUserView {
    pub id: i32,
    pub username: Seq<char>,
    pub hash: Seq<char>,
    pub permissions: Seq<Permission>,
    pub role: Role,
    pub groups: Seq<Seq<char>>,
}

impl View for AuthUser {
    type V = AuthUserView;

    open spec fn view(&self) -> AuthUserView {
        AuthUserView {
            id: self.id,
            username: self.username@,
            hash: self.hash@,
            permissions: self.permissions@,
            role: self.role,
            groups: self.groups.deep_view(),
        }
    }
}

impl DeepView for AuthUser {
    type V = AuthUserView;

    open spec fn deep_view(&self) -> AuthUserView {
        self@
    }
}

impl Clone for AuthUser {
    fn clone(&self) -> (copy: Self)
        ensures
            copy@ == self@,
    {
        let permissions = self.permissions.clone();
        let groups = self.groups.clone();
        proof {
            assert(permissions@ =~= self.permissions@);
            assert(groups.deep_view() =~= self.groups.deep_view());
        }
        AuthUser {
            id: self.id,
            username: self.username.clone(),
            hash: self.hash.clone(),
            permissions,
            role: self.role,
            groups,
        }
    }
}

impl AuthUser {
    /// The number of the user.
    pub fn id(&self) -> (id: i32)
        ensures
            id == self@.id,
    {
        self.id
    }

    /// The hash of the user's password.
    pub fn hash(&self) -> (hash: &str)
        ensures
            hash@ == self@.hash,
    {
        self.hash.as_str()
    }

    /// Whether the user holds `permission`.
    pub fn has_permission(&self, permission: Permission) -> (held: bool)
        ensures
            held == self@.permissions.contains(permission),
    {
        let mut i: usize = 0;
        while i < self.permissions.len()
            invariant
                i <= self.permissions.len(),
                forall|j: int| 0 <= j < i ==> self.permissions@[j] != permission,
            decreases self.permissions.len() - i,
        {
            if self.permissions[i] == permission {
                return true;
            }
            i += 1;
        }
        false
    }
}

/// A copy of a payload that may be absent.
pub fn clone_payload(payload: &Option<AuthUser>) -> (copy: Option<AuthUser>)
    ensures
        copy.deep_view() == payload.deep_view(),
{
    match payload {
        Some(user) => Some(user.clone()),
        None => None,
    }
}

} // verus!
