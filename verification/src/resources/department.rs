//! Departments of the school.

use vstd::prelude::*;

verus! {

/// A department that users belong to.
#[derive(Debug)]
pub struct Department {
    pub id: i32,
    pub department: String,
}

} // verus!
