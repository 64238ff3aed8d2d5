//! Integrations: a group's link to one service.

use vstd::prelude::*;
use crate::connectors::ServiceType;
use crate::models::group::Group;

verus! {

/// A stored integration.
#[derive(Debug, Clone, Copy, PartialEq, Eq, Structural)]
pub struct Integration {
    pub id: i32,
    pub service: ServiceType,
    pub group_id: i32,
}

/// An integration that is about to be stored.
#[derive(Debug, Clone, Copy, PartialEq, Eq, Structural)]
pub struct NewIntegration {
    pub service: ServiceType,
    pub group_id: i32,
}

impl Integration {
    /// The integration of a group with a service.
    pub fn new(group: &Group, service: ServiceType) -> (out: NewIntegration)
        ensures
            out == (NewIntegration { service, group_id: group.id }),
    {
        NewIntegration { service, group_id: group.id }
    }
}

} // verus!
