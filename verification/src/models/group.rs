//! Groups: what an application gathers its integrations under.

use vstd::prelude::*;

verus! {

/// A stored group.
#[derive(Debug, Clone, Copy, PartialEq, Eq, Structural)]
pub struct Group {
    pub id: i32,
    pub app_id: i32,
}

/// A group that is about to be stored.
#[derive(Debug, Clone, Copy, PartialEq, Eq, Structural)]
pub struct CreateGroup {
    pub app_id: i32,
}

impl Group {
    /// A new group of the application.
    pub fn new(app_id: i32) -> (out: CreateGroup)
        ensures
            out == (CreateGroup { app_id }),
    {
        CreateGroup { app_id }
    }
}

} // verus!
