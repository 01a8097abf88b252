//! Users of the backend.

use vstd::prelude::*;

verus! {

/// What a user is to the school.
#[derive(Debug, Clone, Copy, PartialEq, Eq, Structural)]
pub enum Role {
    Teacher,
    Admin,
    Student,
}

} // verus!
