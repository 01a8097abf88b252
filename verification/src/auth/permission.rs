//! Permissions and the guard that asks for one.

use crate::auth::AuthUser;
use crate::resources::CursorPaginatable;
use vstd::prelude::*;
use vstd::string::StringExecFns;

verus! {

/// What a user may do.
#[derive(PartialEq, Eq, Clone, Copy, Debug, Structural)]
pub enum Permission {
    EditDepartments,
    EditCategories,
    CreatePosts,
    EditPosts,
    ManageUsers,
    ManagePermissions,
    ManagePages,
}

impl Permission {
    /// The number that stands for the permission where a type takes one.
    pub open spec fn number(self) -> u8 {
        match self {
            Permission::EditDepartments => 0,
            Permission::EditCategories => 1,
            Permission::CreatePosts => 2,
            Permission::EditPosts => 3,
            Permission::ManageUsers => 4,
            Permission::ManagePermissions => 5,
            Permission::ManagePages => 6,
        }
    }

    /// The permission that `value` stands for: the numbers 0 to 6 do, no
    /// other.
    pub fn try_from(value: u8) -> (r: Result<Permission, ()>)
        ensures
            r is Ok <==> value <= 6,
            r matches Ok(permission) ==> permission.number() == value,
    {
        match value {
            0 => Ok(Permission::EditDepartments),
            1 => Ok(Permission::EditCategories),
            2 => Ok(Permission::CreatePosts),
            3 => Ok(Permission::EditPosts),
            4 => Ok(Permission::ManageUsers),
            5 => Ok(Permission::ManagePermissions),
            6 => Ok(Permission::ManagePages),
            _ => Err(()),
        }
    }
}

impl Permission {
    /// The name of the permission.
    pub open spec fn name(self) -> Seq<char> {
        match self {
            Permission::EditDepartments => "EditDepartments"@,
            Permission::EditCategories => "EditCategories"@,
            Permission::CreatePosts => "CreatePosts"@,
            Permission::EditPosts => "EditPosts"@,
            Permission::ManageUsers => "ManageUsers"@,
            Permission::ManagePermissions => "ManagePermissions"@,
            Permission::ManagePages => "ManagePages"@,
        }
    }

    /// The name of the permission.
    pub fn to_string(&self) -> (text: String)
        ensures
            text@ == self.name(),
    {
        String::from_str(
            match self {
                Self::EditDepartments => "EditDepartments",
                Self::EditCategories => "EditCategories",
                Self::CreatePosts => "CreatePosts",
                Self::EditPosts => "EditPosts",
                Self::ManageUsers => "ManageUsers",
                Self::ManagePermissions => "ManagePermissions",
                Self::ManagePages => "ManagePages",
            },
        )
    }
}

/// Why a request is turned away at a guarded route.
#[derive(Clone, Copy, Debug, PartialEq, Eq, Structural)]
pub enum PermissionRejection {
    /// The request belongs to no authenticated session.
    Unauthorized,
    /// The user lacks the permission.
    Forbidden,
}

/// The guard of a route that asks for the permission with the number
/// `PERMISSION`.
#[derive(Debug)]
pub struct RequirePermission<const PERMISSION: u8>;

impl<const PERMISSION: u8> RequirePermission<PERMISSION> {
    /// Lets the request pass where its session belongs to a user who holds
    /// the permission.
    pub fn from_auth_user(auth_user: Option<&AuthUser>) -> (r: Result<Self, PermissionRejection>)
        requires
            PERMISSION <= 6,
        ensures
            match auth_user {
                None => r == Err::<Self, PermissionRejection>(PermissionRejection::Unauthorized),
                Some(user) => if exists|permission: Permission|
                    permission.number() == PERMISSION && user@.permissions.contains(permission) {
                    r is Ok
                } else {
                    r == Err::<Self, PermissionRejection>(PermissionRejection::Forbidden)
                },
            },
    {
        let user = match auth_user {
            Some(user) => user,
            None => {
                return Err(PermissionRejection::Unauthorized);
            },
        };
        match Permission::try_from(PERMISSION) {
            Ok(required_permission) => {
                if user.has_permission(required_permission) {
                    Ok(Self)
                } else {
                    assert forall|permission: Permission|
                        permission.number() == PERMISSION implies permission
                        == required_permission by {}
                    Err(PermissionRejection::Forbidden)
                }
            },
            Err(_) => Err(PermissionRejection::Forbidden),
        }
    }
}

/// A group of users and what its members may do.
#[derive(Debug)]
pub struct Group {
    pub id: i32,
    pub group_name: String,
    pub permissions: Vec<Permission>,
}

/// What a request for a list of groups asks for: the groups with this
/// number or a name like this one, in this order.
#[derive(Debug)]
pub struct GroupQueryString {
    pub id: Option<i32>,
    pub group_name: Option<String>,
    pub sort_by: Option<String>,
}

impl CursorPaginatable for Group {
    open spec fn spec_id(&self) -> i32 {
        self.id
    }

    fn id(&self) -> (id: i32) {
        self.id
    }
}

/// A user with the permissions and the groups that they have.
#[derive(Debug)]
pub struct UserPermissions {
    pub id: i32,
    pub username: String,
    pub name: String,
    pub permissions: Vec<Permission>,
    pub group_ids: Vec<i32>,
}

/// What a request for a list of users and their permissions asks for: the
/// users with names like these, who hold these permissions and belong to
/// these groups, in this order.
#[derive(Debug)]
pub struct UserPermissionsQueryString {
    pub username: Option<String>,
    pub name: Option<String>,
    pub permissions: Option<Vec<Permission>>,
    pub group_ids: Option<Vec<i32>>,
    pub sort_by: Option<String>,
}

impl CursorPaginatable for UserPermissions {
    open spec fn spec_id(&self) -> i32 {
        self.id
    }

    fn id(&self) -> (id: i32) {
        self.id
    }
}

} // verus!
