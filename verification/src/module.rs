//! The records that a module graph stores: modules, their graph nodes,
//! dependencies and connections.
use vstd::prelude::*;
use rustc_hash::FxHashSet;
use crate::collections::{set_insert, set_new};
use crate::ids::{ConnectionId, ConnectionKey, DependencyId, ModuleIdentifier};

verus! {

/// The kind of source a module holds.
#[derive(Clone, Copy, PartialEq, Eq, Debug, Structural)]
pub enum ModuleType {
    Js,
    JsDynamic,
    JsEsm,
    Jsx,
    Ts,
    Tsx,
    Css,
    Json,
    Asset,
}

/// A module, as the graph sees it: its identifier and, for a normal module
/// (one read from a file), the path of the resolved resource.
#[derive(Clone, Debug)]
pub struct Module {
    pub identifier: ModuleIdentifier,
    pub resource_path: Option<String>,
}

impl Module {
    /// The identifier of the module.
    pub fn identifier(&self) -> (id: ModuleIdentifier)
        ensures
            id == self.identifier,
    {
        self.identifier
    }
}

/// Who caused a module to be added to the graph.
#[derive(Clone, Copy, PartialEq, Eq, Debug, Structural)]
pub enum ModuleIssuer {
    /// Not recorded yet.
    Unset,
    /// The module has no issuer (an entry).
    NoIssuer,
    /// The module was issued by the module with this identifier.
    Issuer(ModuleIdentifier),
}

/// The node of a module in the graph: its connections in both directions,
/// its dependencies and what later passes record about it.
#[derive(Debug)]
pub struct ModuleGraphModule {
    /// Connections from this module to the modules that it depends on.
    pub outgoing_connections: FxHashSet<ConnectionId>,
    /// Connections from the modules that depend on this one.
    pub incoming_connections: FxHashSet<ConnectionId>,
    pub issuer: ModuleIssuer,
    pub module_identifier: ModuleIdentifier,
    /// The dependencies of the module, in source order.
    pub dependencies: Vec<DependencyId>,
    pub pre_order_index: Option<usize>,
    pub post_order_index: Option<usize>,
    pub module_type: ModuleType,
    pub is_entry: bool,
    pub hash: Option<u64>,
}

impl ModuleGraphModule {
    /// Everything but the two connection sets is the same in `self` and `other`.
    pub open spec fn same_except_connections(self, other: Self) -> bool {
        &&& self.issuer == other.issuer
        &&& self.module_identifier == other.module_identifier
        &&& self.dependencies@ == other.dependencies@
        &&& self.pre_order_index == other.pre_order_index
        &&& self.post_order_index == other.post_order_index
        &&& self.module_type == other.module_type
        &&& self.is_entry == other.is_entry
        &&& self.hash == other.hash
    }

    /// A node with no connections, no dependencies and nothing recorded.
    pub fn new(module_identifier: ModuleIdentifier, module_type: ModuleType, is_entry: bool) -> (m: Self)
        ensures
            m.outgoing_connections@.is_empty(),
            m.incoming_connections@.is_empty(),
            m.issuer == ModuleIssuer::Unset,
            m.module_identifier == module_identifier,
            m.dependencies@.len() == 0,
            m.pre_order_index.is_none(),
            m.post_order_index.is_none(),
            m.module_type == module_type,
            m.is_entry == is_entry,
            m.hash.is_none(),
    {
        ModuleGraphModule {
            outgoing_connections: set_new(),
            incoming_connections: set_new(),
            issuer: ModuleIssuer::Unset,
            module_identifier,
            dependencies: Vec::new(),
            pre_order_index: None,
            post_order_index: None,
            module_type,
            is_entry,
            hash: None,
        }
    }

    /// Records a connection that points at this module.
    pub fn add_incoming_connection(&mut self, connection_id: ConnectionId)
        ensures
            final(self).incoming_connections@ == old(self).incoming_connections@.insert(connection_id),
            final(self).outgoing_connections@ == old(self).outgoing_connections@,
            final(self).same_except_connections(*old(self)),
    {
        set_insert(&mut self.incoming_connections, connection_id);
    }

    /// Records a connection that leaves this module.
    pub fn add_outgoing_connection(&mut self, connection_id: ConnectionId)
        ensures
            final(self).outgoing_connections@ == old(self).outgoing_connections@.insert(connection_id),
            final(self).incoming_connections@ == old(self).incoming_connections@,
            final(self).same_except_connections(*old(self)),
    {
        set_insert(&mut self.outgoing_connections, connection_id);
    }

    /// The issuer of the module.
    pub fn get_issuer(&self) -> (issuer: &ModuleIssuer)
        ensures
            *issuer == self.issuer,
    {
        &self.issuer
    }

    /// Records the issuer of the module.
    pub fn set_issuer(&mut self, issuer: ModuleIssuer)
        ensures
            final(self).issuer == issuer,
            final(self).outgoing_connections@ == old(self).outgoing_connections@,
            final(self).incoming_connections@ == old(self).incoming_connections@,
            final(self).module_identifier == old(self).module_identifier,
            final(self).dependencies@ == old(self).dependencies@,
            final(self).pre_order_index == old(self).pre_order_index,
            final(self).post_order_index == old(self).post_order_index,
            final(self).module_type == old(self).module_type,
            final(self).is_entry == old(self).is_entry,
            final(self).hash == old(self).hash,
    {
        self.issuer = issuer;
    }
}

/// A dependency of a module on a request, before and after the graph has
/// given it an id.
#[derive(Clone, Debug)]
pub struct ModuleDependency {
    pub id: Option<DependencyId>,
    pub parent_module_identifier: Option<ModuleIdentifier>,
    pub request: String,
    pub user_request: String,
}

impl ModuleDependency {
    /// A dependency of `parent_module_identifier` on `request`, with no id yet.
    pub fn new(parent_module_identifier: Option<ModuleIdentifier>, request: String) -> (d: Self)
        ensures
            d.id.is_none(),
            d.parent_module_identifier == parent_module_identifier,
            d.request@ == request@,
            d.user_request@ == request@,
    {
        let user_request = request.clone();
        ModuleDependency { id: None, parent_module_identifier, request, user_request }
    }

    /// The id that the graph gave the dependency, if any.
    pub fn id(&self) -> (id: Option<DependencyId>)
        ensures
            id == self.id,
    {
        self.id
    }

    /// Gives the dependency an id.
    pub fn set_id(&mut self, id: Option<DependencyId>)
        ensures
            *final(self) == (ModuleDependency { id, ..*old(self) }),
    {
        self.id = id;
    }
}

/// A resolved dependency: the module that holds it (none for an entry), the
/// dependency and the module that it resolved to.
#[derive(Clone, Copy, Debug)]
pub struct ModuleGraphConnection {
    pub original_module_identifier: Option<ModuleIdentifier>,
    pub module_identifier: ModuleIdentifier,
    pub dependency_id: DependencyId,
    pub id: ConnectionId,
}

impl ModuleGraphConnection {
    /// The key of the connection: everything but its id.
    pub open spec fn spec_key(self) -> ConnectionKey {
        ConnectionKey {
            original_module_identifier: self.original_module_identifier,
            dependency_id: self.dependency_id,
            module_identifier: self.module_identifier,
        }
    }

    /// The module that holds the dependency, and the dependency.
    pub open spec fn origin_and_dependency(self) -> (Option<ModuleIdentifier>, DependencyId) {
        (self.original_module_identifier, self.dependency_id)
    }

    /// The key of the connection: everything but its id.
    pub fn key(&self) -> (k: ConnectionKey)
        ensures
            k == self.spec_key(),
    {
        ConnectionKey {
            original_module_identifier: self.original_module_identifier,
            dependency_id: self.dependency_id,
            module_identifier: self.module_identifier,
        }
    }
}

/// Why an operation on the graph failed.
#[derive(Clone, Copy, PartialEq, Eq, Debug, Structural)]
pub enum ModuleGraphError {
    /// A dependency was resolved to a module that has no node in the graph.
    ModuleNotFound(ModuleIdentifier),
}

impl ModuleGraphError {
    /// The identifier of the module that could not be found.
    pub fn module_identifier(&self) -> (id: ModuleIdentifier)
        ensures
            self == ModuleGraphError::ModuleNotFound(id),
    {
        match self {
            ModuleGraphError::ModuleNotFound(id) => *id,
        }
    }

    /// The message of the error, given the name of its module: a module
    /// identifier is a handle for an interned name, and whoever interned it
    /// holds the name.
    pub open spec fn spec_message(self, module_name: Seq<char>) -> Seq<char> {
        match self {
            ModuleGraphError::ModuleNotFound(_) => "Failed to set resolved module: Module linked to module identifier "@
                + module_name + " cannot be found"@,
        }
    }

    /// The message of the error; `module_name` is the name for which the
    /// error's module identifier stands.
    pub fn message(&self, module_name: &str) -> (m: String)
        ensures
            m@ == self.spec_message(module_name@),
    {
        match self {
            ModuleGraphError::ModuleNotFound(_) => {
                let mut m = String::from_str("Failed to set resolved module: Module linked to module identifier ");
                m.append(module_name);
                m.append(" cannot be found");
                m
            },
        }
    }
}

} // verus!
