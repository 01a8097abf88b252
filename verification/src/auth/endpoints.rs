//! What the routes that manage groups take.

use crate::auth::permission::Permission;
use vstd::prelude::*;

verus! {

/// The group that a request asks to create.
#[derive(Debug)]
pub struct CreateGroupBody {
    pub group_name: String,
    pub permissions: Vec<Permission>,
}

/// What a request asks to put in place of a group's name and permissions.
#[derive(Debug)]
pub struct PutGroupBody {
    pub group_name: String,
    pub permissions: Vec<Permission>,
}

} // verus!
