//! Categories of posts.

use vstd::prelude::*;

verus! {

/// A category that posts are filed under.
#[derive(Debug)]
pub struct Category {
    pub id: i32,
    pub category: String,
}

} // verus!
