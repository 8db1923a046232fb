//! Opaque handles given to the core by the supervision and scheduling layer.
//!
//! The core never looks inside these: it stores them, hands them back through
//! the context's accessors, and carries them inside control envelopes. Each
//! is represented here by the identity of the entity it refers to.

use vstd::prelude::*;

use crate::context::BastionId;

verus! {

/// A reference to one element of a children group.
#[derive(Clone, Copy, PartialEq, Eq, Debug, Structural)]
pub struct ChildRef {
    id: BastionId,
}

/// A reference to a children group.
#[derive(Clone, Copy, PartialEq, Eq, Debug, Structural)]
pub struct ChildrenRef {
    id: BastionId,
}

/// A reference to a supervisor.
#[derive(Clone, Copy, PartialEq, Eq, Debug, Structural)]
pub struct SupervisorRef {
    id: BastionId,
}

/// A supervisor to be deployed, owned by the deployment that carries it.
#[derive(Debug)]
pub struct Supervisor {
    id: BastionId,
}

/// A children group to be deployed, owned by the deployment that carries it.
#[derive(Debug)]
pub struct Children {
    id: BastionId,
}

/// How a supervisor restarts its supervised entities after a fault.
#[derive(Clone, Copy, PartialEq, Eq, Debug, Structural)]
pub enum SupervisionStrategy {
    /// Restart only the faulted entity.
    OneForOne,
    /// Restart every supervised entity.
    OneForAll,
    /// Restart the faulted entity and those added after it.
    RestForOne,
}

impl ChildRef {
    /// The identity of the element referred to.
    pub closed spec fn spec_id(self) -> BastionId {
        self.id
    }

    pub fn new(id: BastionId) -> (r: ChildRef)
        ensures
            r.spec_id() == id,
    {
        ChildRef { id }
    }

    pub fn id(&self) -> (r: &BastionId)
        ensures
            *r == self.spec_id(),
    {
        &self.id
    }
}

impl ChildrenRef {
    /// The identity of the children group referred to.
    pub closed spec fn spec_id(self) -> BastionId {
        self.id
    }

    pub fn new(id: BastionId) -> (r: ChildrenRef)
        ensures
            r.spec_id() == id,
    {
        ChildrenRef { id }
    }

    pub fn id(&self) -> (r: &BastionId)
        ensures
            *r == self.spec_id(),
    {
        &self.id
    }
}

impl SupervisorRef {
    /// The identity of the supervisor referred to.
    pub closed spec fn spec_id(self) -> BastionId {
        self.id
    }

    pub fn new(id: BastionId) -> (r: SupervisorRef)
        ensures
            r.spec_id() == id,
    {
        SupervisorRef { id }
    }

    pub fn id(&self) -> (r: &BastionId)
        ensures
            *r == self.spec_id(),
    {
        &self.id
    }
}

impl Supervisor {
    /// The identity of the supervisor to be deployed.
    pub closed spec fn spec_id(self) -> BastionId {
        self.id
    }

    pub fn new(id: BastionId) -> (r: Supervisor)
        ensures
            r.spec_id() == id,
    {
        Supervisor { id }
    }

    pub fn id(&self) -> (r: &BastionId)
        ensures
            *r == self.spec_id(),
    {
        &self.id
    }
}

impl Children {
    /// The identity of the children group to be deployed.
    pub closed spec fn spec_id(self) -> BastionId {
        self.id
    }

    pub fn new(id: BastionId) -> (r: Children)
        ensures
            r.spec_id() == id,
    {
        Children { id }
    }

    pub fn id(&self) -> (r: &BastionId)
        ensures
            *r == self.spec_id(),
    {
        &self.id
    }
}

} // verus!
