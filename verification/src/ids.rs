//! Identifiers of modules, dependencies and connections.
use vstd::prelude::*;
use crate::collections::HashKey;
use crate::sealed::Sealed;

verus! {

/// Identifies a dependency within a module graph.
#[derive(Clone, Copy, PartialEq, Eq, Hash, Debug, Structural)]
pub struct DependencyId(pub usize);

/// Hands out dependency ids, counting up from zero, so that no id is handed
/// out twice.  One allocator serves every graph of a process, which makes
/// dependency ids unique across graphs.
#[derive(Debug)]
pub struct DependencyIdAllocator {
    next: usize,
}

impl DependencyIdAllocator {
    /// How many ids the allocator has handed out: the next one is this number.
    pub closed spec fn spec_issued(&self) -> usize {
        self.next
    }

    /// An allocator that has handed out nothing.
    pub fn new() -> (a: Self)
        ensures
            a.spec_issued() == 0,
    {
        DependencyIdAllocator { next: 0 }
    }

    /// How many ids the allocator has handed out.
    pub fn issued(&self) -> (n: usize)
        ensures
            n == self.spec_issued(),
    {
        self.next
    }

    /// The next id.
    pub fn allocate(&mut self) -> (id: DependencyId)
        requires
            old(self).spec_issued() < usize::MAX,
        ensures
            id == DependencyId(old(self).spec_issued()),
            final(self).spec_issued() == old(self).spec_issued() + 1,
    {
        let id = DependencyId(self.next);
        self.next = self.next + 1;
        id
    }
}

/// Identifies a connection within a module graph.
#[derive(Clone, Copy, PartialEq, Eq, Hash, Debug, Structural)]
pub struct ConnectionId(pub usize);

/// Identifies a module.  Module identifiers are interned names: equal names
/// share one handle, and the handle is what the graph stores and compares.
#[derive(Clone, Copy, PartialEq, Eq, Hash, Debug, Structural)]
pub struct ModuleIdentifier(pub u64);

/// The endpoints and the dependency of a connection: two connections with
/// the same key are the same connection, whatever their ids.
#[derive(Clone, Copy, PartialEq, Eq, Hash, Debug, Structural)]
pub struct ConnectionKey {
    pub original_module_identifier: Option<ModuleIdentifier>,
    pub dependency_id: DependencyId,
    pub module_identifier: ModuleIdentifier,
}

impl Sealed for DependencyId {}

impl Sealed for ConnectionId {}

impl Sealed for ModuleIdentifier {}

impl Sealed for ConnectionKey {}

impl HashKey for DependencyId {}

impl HashKey for ConnectionId {}

impl HashKey for ModuleIdentifier {}

impl HashKey for ConnectionKey {}

} // verus!
