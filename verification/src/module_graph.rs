//! The module graph.
use vstd::prelude::*;
use rustc_hash::FxHashMap;
use crate::collections::{
    map_contains_key, map_get, map_get_mut, map_insert, map_new, map_remove, set_elements,
    set_remove,
};
use crate::ids::{ConnectionId, ConnectionKey, DependencyId, DependencyIdAllocator, ModuleIdentifier};
use crate::module::{
    Module, ModuleDependency, ModuleGraphConnection, ModuleGraphError, ModuleGraphModule,
    ModuleIssuer,
};

verus! {

/// A map keyed by module identifiers.
pub type IdentifierMap<V> = FxHashMap<ModuleIdentifier, V>;

/// The value of `k` in `m`, if it has one.
pub open spec fn lookup<K, V>(m: Map<K, V>, k: K) -> Option<V> {
    if m.contains_key(k) { Some(m[k]) } else { None }
}

/// The value that an optional reference points at.
pub open spec fn deref_option<V>(o: Option<&V>) -> Option<V> {
    match o {
        Some(v) => Some(*v),
        None => None,
    }
}

/// `new` keeps the module graph modules of `old` that it has, with every
/// field but the connection sets unchanged, and the connection sets changed
/// as `incoming` and `outgoing` say.
pub open spec fn graph_modules_relinked(
    old: Map<ModuleIdentifier, ModuleGraphModule>,
    new: Map<ModuleIdentifier, ModuleGraphModule>,
    incoming: spec_fn(ModuleIdentifier, Set<ConnectionId>) -> Set<ConnectionId>,
    outgoing: spec_fn(ModuleIdentifier, Set<ConnectionId>) -> Set<ConnectionId>,
) -> bool {
    forall|m: ModuleIdentifier| #[trigger] new.contains_key(m) ==> {
        &&& old.contains_key(m)
        &&& new[m].same_except_connections(old[m])
        &&& new[m].incoming_connections@ == incoming(m, old[m].incoming_connections@)
        &&& new[m].outgoing_connections@ == outgoing(m, old[m].outgoing_connections@)
    }
}

/// The modules of a compilation and the resolved dependencies between them.
///
/// Dependency ids come from a [`DependencyIdAllocator`] that the caller
/// passes in, one for the whole process; connection ids are handed out by
/// the graph itself, counting up from zero, and a graph never hands out the
/// same connection id twice.
#[derive(Debug)]
pub struct ModuleGraph {
    dependency_id_to_module_identifier: FxHashMap<DependencyId, ModuleIdentifier>,
    /// Module identifier to its module
    module_identifier_to_module: IdentifierMap<Module>,
    /// Module identifier to its module graph module
    module_identifier_to_module_graph_module: IdentifierMap<ModuleGraphModule>,
    dependency_id_to_connection_id: FxHashMap<DependencyId, ConnectionId>,
    connection_id_to_dependency_id: FxHashMap<ConnectionId, DependencyId>,
    dependency_id_to_dependency: FxHashMap<DependencyId, ModuleDependency>,
    /// The module graph connections, by their key
    connections: FxHashMap<ConnectionKey, ConnectionId>,
    connection_id_to_connection: FxHashMap<ConnectionId, ModuleGraphConnection>,
    next_connection_id: usize,
}

impl ModuleGraph {
    /// Dependency id to the module that the dependency resolved to.
    pub closed spec fn dependency_modules(&self) -> Map<DependencyId, ModuleIdentifier> {
        self.dependency_id_to_module_identifier@
    }

    /// Module identifier to its module.
    pub closed spec fn module_map(&self) -> Map<ModuleIdentifier, Module> {
        self.module_identifier_to_module@
    }

    /// Module identifier to its module graph module.
    pub closed spec fn graph_module_map(&self) -> Map<ModuleIdentifier, ModuleGraphModule> {
        self.module_identifier_to_module_graph_module@
    }

    /// Dependency id to the id of its connection.
    pub closed spec fn dependency_connections(&self) -> Map<DependencyId, ConnectionId> {
        self.dependency_id_to_connection_id@
    }

    /// Connection id to the id of its dependency.
    pub closed spec fn connection_dependencies(&self) -> Map<ConnectionId, DependencyId> {
        self.connection_id_to_dependency_id@
    }

    /// Dependency id to the dependency.
    pub closed spec fn dependency_map(&self) -> Map<DependencyId, ModuleDependency> {
        self.dependency_id_to_dependency@
    }

    /// Connection key to the id of the connection with that key.
    pub closed spec fn connection_keys(&self) -> Map<ConnectionKey, ConnectionId> {
        self.connections@
    }

    /// Connection id to the connection.
    pub closed spec fn connection_map(&self) -> Map<ConnectionId, ModuleGraphConnection> {
        self.connection_id_to_connection@
    }

    /// How many connection ids the graph has handed out: the next one is this number.
    pub closed spec fn connection_ids_issued(&self) -> usize {
        self.next_connection_id
    }

    /// The invariant of the graph: every stored dependency carries its own
    /// id; every connection is stored under its own id, which was handed
    /// out, and the key table holds exactly one entry for each connection,
    /// the id of that connection under its key; the connection of a
    /// dependency was handed out and, where the graph holds it, is a
    /// connection of that dependency.
    pub open spec fn wf(&self) -> bool {
        &&& forall|d: DependencyId| #[trigger] self.dependency_connections().contains_key(d) ==> {
            &&& self.dependency_connections()[d].0 < self.connection_ids_issued()
            &&& self.connection_map().contains_key(self.dependency_connections()[d])
                ==> self.connection_map()[self.dependency_connections()[d]].dependency_id == d
        }
        &&& forall|d: DependencyId| #[trigger] self.dependency_map().contains_key(d) ==> {
            &&& self.dependency_map()[d].id == Some(d)
        }
        &&& forall|c: ConnectionId| #[trigger] self.connection_map().contains_key(c) ==> {
            &&& c.0 < self.connection_ids_issued()
            &&& self.connection_map()[c].id == c
            &&& self.connection_keys().contains_key(self.connection_map()[c].spec_key())
            &&& self.connection_keys()[self.connection_map()[c].spec_key()] == c
        }
        &&& forall|k: ConnectionKey| #[trigger] self.connection_keys().contains_key(k) ==> {
            &&& self.connection_map().contains_key(self.connection_keys()[k])
            &&& self.connection_map()[self.connection_keys()[k]].spec_key() == k
        }
    }

    /// `self` and `other` agree on everything but the module graph modules.
    pub open spec fn same_except_graph_modules(self, other: Self) -> bool {
        &&& self.dependency_modules() == other.dependency_modules()
        &&& self.module_map() == other.module_map()
        &&& self.dependency_connections() == other.dependency_connections()
        &&& self.connection_dependencies() == other.connection_dependencies()
        &&& self.dependency_map() == other.dependency_map()
        &&& self.connection_keys() == other.connection_keys()
        &&& self.connection_map() == other.connection_map()
        &&& self.connection_ids_issued() == other.connection_ids_issued()
    }

    /// The connection that resolving `dependency_id` from
    /// `original_module_identifier` to `module_identifier` leaves in the
    /// graph: the one with that key if there is one, else a new one with the
    /// next connection id.
    pub open spec fn resolved_connection(
        self,
        original_module_identifier: Option<ModuleIdentifier>,
        dependency_id: DependencyId,
        module_identifier: ModuleIdentifier,
    ) -> ModuleGraphConnection {
        let key = ConnectionKey { original_module_identifier, dependency_id, module_identifier };
        let id = if self.connection_keys().contains_key(key) {
            self.connection_keys()[key]
        } else {
            ConnectionId(self.connection_ids_issued())
        };
        ModuleGraphConnection { original_module_identifier, module_identifier, dependency_id, id }
    }

    /// What [`ModuleGraph::set_resolved_module`] does: it records the
    /// module of the dependency, reuses the connection with the same key or
    /// adds a new one, links dependency and connection both ways, and adds
    /// the connection to the incoming connections of the resolved module and
    /// to the outgoing connections of the original module.  When the
    /// resolved module has no module graph module it fails, with every other
    /// change made and no module graph module changed.
    pub open spec fn resolved_module_set(
        old: Self,
        new: Self,
        original_module_identifier: Option<ModuleIdentifier>,
        dependency_id: DependencyId,
        module_identifier: ModuleIdentifier,
        r: Result<(), ModuleGraphError>,
    ) -> bool {
        let conn = old.resolved_connection(original_module_identifier, dependency_id, module_identifier);
        let cid = conn.id;
        &&& new.dependency_modules() == old.dependency_modules().insert(dependency_id, module_identifier)
        &&& new.module_map() == old.module_map()
        &&& new.dependency_map() == old.dependency_map()
        &&& new.dependency_connections() == old.dependency_connections().insert(dependency_id, cid)
        &&& new.connection_dependencies() == old.connection_dependencies().insert(cid, dependency_id)
        &&& new.connection_keys() == old.connection_keys().insert(conn.spec_key(), cid)
        &&& new.connection_map() == old.connection_map().insert(cid, conn)
        &&& new.connection_ids_issued() == old.connection_ids_issued() + 1
        &&& (r is Ok) == old.graph_module_map().contains_key(module_identifier)
        &&& r is Err ==> r == Err::<(), ModuleGraphError>(ModuleGraphError::ModuleNotFound(module_identifier))
        &&& r is Err ==> new.graph_module_map() == old.graph_module_map()
        &&& r is Ok ==> graph_modules_relinked(
            old.graph_module_map(),
            new.graph_module_map(),
            |m: ModuleIdentifier, s: Set<ConnectionId>|
                if m == module_identifier { s.insert(cid) } else { s },
            |m: ModuleIdentifier, s: Set<ConnectionId>|
                if original_module_identifier == Some(m) { s.insert(cid) } else { s },
        )
        &&& new.graph_module_map().dom() == old.graph_module_map().dom()
    }

    /// The connections among `cids` that the graph holds.
    pub open spec fn live_connections(self, cids: Set<ConnectionId>) -> Set<ConnectionId> {
        cids.intersect(self.connection_map().dom())
    }

    /// `new` is `old` with the connections among `cids` that `old` holds
    /// revoked: each such connection leaves the connection table and the key
    /// table, its dependency loses its connection and its module, and its id
    /// leaves the outgoing connections of its original module and the
    /// incoming connections of its module, where those modules have module
    /// graph modules.  What a dependency's connection id maps back to, the
    /// dependencies and the connection id counter stay.
    pub open spec fn connections_revoked(old: Self, new: Self, cids: Set<ConnectionId>) -> bool {
        let live = old.live_connections(cids);
        let conns = old.connection_map();
        &&& new.connection_map() == conns.remove_keys(live)
        &&& new.connection_keys() == old.connection_keys().remove_keys(
            live.map(|c: ConnectionId| conns[c].spec_key()),
        )
        &&& new.dependency_connections() == old.dependency_connections().remove_keys(
            live.map(|c: ConnectionId| conns[c].dependency_id),
        )
        &&& new.dependency_modules() == old.dependency_modules().remove_keys(
            live.map(|c: ConnectionId| conns[c].dependency_id),
        )
        &&& new.connection_dependencies() == old.connection_dependencies()
        &&& new.dependency_map() == old.dependency_map()
        &&& new.connection_ids_issued() == old.connection_ids_issued()
        &&& graph_modules_relinked(
            old.graph_module_map(),
            new.graph_module_map(),
            |m: ModuleIdentifier, s: Set<ConnectionId>|
                s.difference(live.filter(|c: ConnectionId| conns[c].module_identifier == m)),
            |m: ModuleIdentifier, s: Set<ConnectionId>|
                s.difference(
                    live.filter(|c: ConnectionId| conns[c].original_module_identifier == Some(m)),
                ),
        )
    }

    /// What [`ModuleGraph::revoke_module`] does: the module and its module
    /// graph module leave the graph, and the connections that the module
    /// graph module listed, outgoing and incoming, are revoked.  The result
    /// lists, in some order and once each, the origin module identifier and
    /// the dependency of each incoming connection that the graph held and
    /// that was not also outgoing.
    pub open spec fn module_revoked(
        old: Self,
        new: Self,
        module_identifier: ModuleIdentifier,
        r: Seq<(Option<ModuleIdentifier>, DependencyId)>,
    ) -> bool {
        &&& new.module_map() == old.module_map().remove(module_identifier)
        &&& new.graph_module_map().dom() == old.graph_module_map().dom().remove(module_identifier)
        &&& if old.graph_module_map().contains_key(module_identifier) {
            let mgm = old.graph_module_map()[module_identifier];
            let outgoing = mgm.outgoing_connections@;
            let incoming = mgm.incoming_connections@;
            &&& Self::connections_revoked(old, new, outgoing.union(incoming))
            &&& exists|order: Seq<ConnectionId>| {
                &&& order.no_duplicates()
                &&& order.to_set() == old.live_connections(incoming.difference(outgoing))
                &&& r == order.map_values(|c: ConnectionId| old.connection_map()[c].origin_and_dependency())
            }
        } else {
            &&& Self::connections_revoked(old, new, Set::empty())
            &&& r.len() == 0
        }
    }

    /// What [`ModuleGraph::remove_connection_by_dependency`] does: the
    /// dependency loses its connection, its module and its entry; the
    /// connection id loses its dependency; the connection, where the graph
    /// holds it, leaves the connection table and the key table and leaves
    /// the outgoing connections of its original module and the incoming
    /// connections of its module.  The result is that connection.
    pub open spec fn connection_removed_by_dependency(
        old: Self,
        new: Self,
        dependency_id: DependencyId,
        r: Option<ModuleGraphConnection>,
    ) -> bool {
        let had = old.dependency_connections().contains_key(dependency_id);
        let cid = old.dependency_connections()[dependency_id];
        let live = had && old.connection_map().contains_key(cid);
        let conn = old.connection_map()[cid];
        &&& r == (if live { Some(conn) } else { None::<ModuleGraphConnection> })
        &&& new.dependency_connections() == old.dependency_connections().remove(dependency_id)
        &&& new.connection_dependencies() == (if had {
            old.connection_dependencies().remove(cid)
        } else {
            old.connection_dependencies()
        })
        &&& new.connection_map() == (if live { old.connection_map().remove(cid) } else { old.connection_map() })
        &&& new.connection_keys() == (if live {
            old.connection_keys().remove(conn.spec_key())
        } else {
            old.connection_keys()
        })
        &&& new.dependency_modules() == old.dependency_modules().remove(dependency_id)
        &&& new.dependency_map() == old.dependency_map().remove(dependency_id)
        &&& new.module_map() == old.module_map()
        &&& new.connection_ids_issued() == old.connection_ids_issued()
        &&& new.graph_module_map().dom() == old.graph_module_map().dom()
        &&& graph_modules_relinked(
            old.graph_module_map(),
            new.graph_module_map(),
            |m: ModuleIdentifier, s: Set<ConnectionId>|
                if live && conn.module_identifier == m { s.remove(cid) } else { s },
            |m: ModuleIdentifier, s: Set<ConnectionId>|
                if live && conn.original_module_identifier == Some(m) { s.remove(cid) } else { s },
        )
    }

    /// `self` and `other` agree on everything but the modules.
    pub open spec fn same_except_modules(self, other: Self) -> bool {
        &&& self.dependency_modules() == other.dependency_modules()
        &&& self.graph_module_map() == other.graph_module_map()
        &&& self.dependency_connections() == other.dependency_connections()
        &&& self.connection_dependencies() == other.connection_dependencies()
        &&& self.dependency_map() == other.dependency_map()
        &&& self.connection_keys() == other.connection_keys()
        &&& self.connection_map() == other.connection_map()
        &&& self.connection_ids_issued() == other.connection_ids_issued()
    }

    /// `self` and `other` agree on everything but the dependencies.
    pub open spec fn same_except_dependencies(self, other: Self) -> bool {
        &&& self.dependency_modules() == other.dependency_modules()
        &&& self.module_map() == other.module_map()
        &&& self.graph_module_map() == other.graph_module_map()
        &&& self.dependency_connections() == other.dependency_connections()
        &&& self.connection_dependencies() == other.connection_dependencies()
        &&& self.connection_keys() == other.connection_keys()
        &&& self.connection_map() == other.connection_map()
        &&& self.connection_ids_issued() == other.connection_ids_issued()
    }

    /// What [`ModuleGraph::add_dependency`] does, with an id allocator that
    /// had handed out `old_issued` ids and then `new_issued`: a dependency
    /// that already has an id is left out of the graph, the allocator is not
    /// used, and the id is returned; any other gets the allocator's next id,
    /// is stored under it carrying it, and the id is returned.
    pub open spec fn dependency_added(
        old: Self,
        new: Self,
        old_issued: usize,
        new_issued: usize,
        dep: ModuleDependency,
        id: DependencyId,
    ) -> bool {
        match dep.id {
            Some(given) => id == given && new == old && new_issued == old_issued,
            None => {
                &&& id == DependencyId(old_issued)
                &&& new_issued == old_issued + 1
                &&& new.dependency_map() == old.dependency_map().insert(id, ModuleDependency { id: Some(id), ..dep })
                &&& new.same_except_dependencies(old)
            },
        }
    }

    /// The module graph module of the module that a dependency resolved to.
    pub open spec fn spec_module_graph_module_by_dependency_id(self, id: DependencyId) -> Option<ModuleGraphModule> {
        match lookup(self.dependency_modules(), id) {
            Some(m) => lookup(self.graph_module_map(), m),
            None => None,
        }
    }

    /// The connection of a dependency.
    pub open spec fn spec_connection_by_dependency(self, id: DependencyId) -> Option<ModuleGraphConnection> {
        match lookup(self.dependency_connections(), id) {
            Some(c) => lookup(self.connection_map(), c),
            None => None,
        }
    }

    /// The dependency of a connection.
    pub open spec fn spec_dependency_by_connection_id(self, id: ConnectionId) -> Option<ModuleDependency> {
        match lookup(self.connection_dependencies(), id) {
            Some(d) => lookup(self.dependency_map(), d),
            None => None,
        }
    }

    /// The hash recorded for a module.
    pub open spec fn spec_module_hash(self, id: ModuleIdentifier) -> Option<u64> {
        match lookup(self.graph_module_map(), id) {
            Some(mgm) => mgm.hash,
            None => None,
        }
    }

    /// The connections among the outgoing connections of `m` that the graph
    /// holds, or none when `m` has no module graph module.
    pub open spec fn live_outgoing_connections(self, m: ModuleIdentifier) -> Set<ConnectionId> {
        if self.graph_module_map().contains_key(m) {
            self.live_connections(self.graph_module_map()[m].outgoing_connections@)
        } else {
            Set::empty()
        }
    }

    /// What [`ModuleGraph::add_module`] does: the module is stored under its
    /// identifier unless a module is stored there already; nothing else
    /// changes.
    pub open spec fn module_added(old: Self, new: Self, module: Module) -> bool {
        &&& new.same_except_modules(old)
        &&& new.module_map() == (if old.module_map().contains_key(module.identifier) {
            old.module_map()
        } else {
            old.module_map().insert(module.identifier, module)
        })
    }

    /// What [`ModuleGraph::set_module_hash`] does: the module graph module of
    /// the module, where there is one, records the hash; nothing else changes.
    pub open spec fn module_hash_set(old: Self, new: Self, module_identifier: ModuleIdentifier, hash: u64) -> bool {
        &&& new.same_except_graph_modules(old)
        &&& new.graph_module_map().dom() == old.graph_module_map().dom()
        &&& forall|m: ModuleIdentifier| #[trigger] new.graph_module_map().contains_key(m) && m != module_identifier
            ==> new.graph_module_map()[m] == old.graph_module_map()[m]
        &&& old.graph_module_map().contains_key(module_identifier) ==> {
            let (o, n) = (old.graph_module_map()[module_identifier], new.graph_module_map()[module_identifier]);
            &&& n.hash == Some(hash)
            &&& n.outgoing_connections == o.outgoing_connections
            &&& n.incoming_connections == o.incoming_connections
            &&& n.issuer == o.issuer
            &&& n.module_identifier == o.module_identifier
            &&& n.dependencies == o.dependencies
            &&& n.pre_order_index == o.pre_order_index
            &&& n.post_order_index == o.post_order_index
            &&& n.module_type == o.module_type
            &&& n.is_entry == o.is_entry
        }
    }

    /// What [`ModuleGraph::add_module_graph_module`] does: the module graph
    /// module is stored under its module's identifier unless one is stored
    /// there already; nothing else changes.
    pub open spec fn graph_module_added(old: Self, new: Self, module_graph_module: ModuleGraphModule) -> bool {
        &&& new.same_except_graph_modules(old)
        &&& new.graph_module_map() == (if old.graph_module_map().contains_key(module_graph_module.module_identifier) {
            old.graph_module_map()
        } else {
            old.graph_module_map().insert(module_graph_module.module_identifier, module_graph_module)
        })
    }

    /// Every module is stored under its own identifier.
    pub open spec fn modules_keyed_by_identifier(self) -> bool {
        forall|m: ModuleIdentifier| #[trigger] self.module_map().contains_key(m) ==> self.module_map()[m].identifier == m
    }

    /// Every module graph module is stored under its module's identifier.
    pub open spec fn graph_modules_keyed_by_identifier(self) -> bool {
        forall|m: ModuleIdentifier| #[trigger] self.graph_module_map().contains_key(m)
            ==> self.graph_module_map()[m].module_identifier == m
    }

    /// Every connection id that a module graph module lists, incoming or
    /// outgoing, is a connection that the graph holds.
    pub open spec fn listed_connections_registered(self) -> bool {
        &&& forall|m: ModuleIdentifier, c: ConnectionId|
            #[trigger] self.graph_module_map().contains_key(m)
                && #[trigger] self.graph_module_map()[m].incoming_connections@.contains(c)
                ==> self.connection_map().contains_key(c)
        &&& forall|m: ModuleIdentifier, c: ConnectionId|
            #[trigger] self.graph_module_map().contains_key(m)
                && #[trigger] self.graph_module_map()[m].outgoing_connections@.contains(c)
                ==> self.connection_map().contains_key(c)
    }

    /// Every connection id that a module graph module lists is a connection
    /// that the graph holds and that has that module at the right end: its
    /// module for an incoming connection, its original module for an
    /// outgoing one.
    pub open spec fn connection_sets_consistent(self) -> bool {
        &&& forall|m: ModuleIdentifier, c: ConnectionId|
            #[trigger] self.graph_module_map().contains_key(m)
                && #[trigger] self.graph_module_map()[m].incoming_connections@.contains(c)
                ==> self.connection_map().contains_key(c) && self.connection_map()[c].module_identifier == m
        &&& forall|m: ModuleIdentifier, c: ConnectionId|
            #[trigger] self.graph_module_map().contains_key(m)
                && #[trigger] self.graph_module_map()[m].outgoing_connections@.contains(c)
                ==> self.connection_map().contains_key(c) && self.connection_map()[c].original_module_identifier == Some(m)
    }

    /// What [`ModuleGraph::get_outgoing_connections`] returns for the module
    /// `m`: the outgoing connections of `m` that the graph holds, once each,
    /// in some order.
    pub open spec fn outgoing_connections_listed(self, m: ModuleIdentifier, r: Seq<ModuleGraphConnection>) -> bool {
        exists|order: Seq<ConnectionId>| {
            &&& order.no_duplicates()
            &&& order.to_set() == self.live_outgoing_connections(m)
            &&& r == order.map_values(|c: ConnectionId| self.connection_map()[c])
        }
    }

    /// An empty graph.
    pub fn new() -> (g: Self)
        ensures
            g.wf(),
            g.dependency_modules().is_empty(),
            g.module_map().is_empty(),
            g.graph_module_map().is_empty(),
            g.dependency_connections().is_empty(),
            g.connection_dependencies().is_empty(),
            g.dependency_map().is_empty(),
            g.connection_keys().is_empty(),
            g.connection_map().is_empty(),
            g.connection_ids_issued() == 0,
    {
        ModuleGraph {
            dependency_id_to_module_identifier: map_new(),
            module_identifier_to_module: map_new(),
            module_identifier_to_module_graph_module: map_new(),
            dependency_id_to_connection_id: map_new(),
            connection_id_to_dependency_id: map_new(),
            dependency_id_to_dependency: map_new(),
            connections: map_new(),
            connection_id_to_connection: map_new(),
            next_connection_id: 0,
        }
    }

    /// The module table: every module, under its identifier.
    pub fn modules(&self) -> (r: &IdentifierMap<Module>)
        ensures
            r@ == self.module_map(),
    {
        &self.module_identifier_to_module
    }

    /// The modules, for the caller to change.
    pub fn modules_mut(&mut self) -> (r: &mut IdentifierMap<Module>)
        ensures
            old(self).wf() ==> final(self).wf(),
            r@ == old(self).module_map(),
            final(self).module_map() == final(r)@,
            final(self).same_except_modules(*old(self)),
    {
        &mut self.module_identifier_to_module
    }

    /// The module graph modules.
    pub fn module_graph_modules(&self) -> (r: &IdentifierMap<ModuleGraphModule>)
        ensures
            r@ == self.graph_module_map(),
    {
        &self.module_identifier_to_module_graph_module
    }

    /// Adds a module graph module under its module's identifier, unless one
    /// is there already.
    pub fn add_module_graph_module(&mut self, module_graph_module: ModuleGraphModule)
        ensures
            old(self).wf() ==> final(self).wf(),
            Self::graph_module_added(*old(self), *final(self), module_graph_module),
    {
        let id = module_graph_module.module_identifier;
        if !map_contains_key(&self.module_identifier_to_module_graph_module, &id) {
            map_insert(&mut self.module_identifier_to_module_graph_module, id, module_graph_module);
        }
    }

    /// Adds a module under its identifier, unless one is there already.
    pub fn add_module(&mut self, module: Module)
        ensures
            old(self).wf() ==> final(self).wf(),
            Self::module_added(*old(self), *final(self), module),
    {
        let id = module.identifier();
        if !map_contains_key(&self.module_identifier_to_module, &id) {
            map_insert(&mut self.module_identifier_to_module, id, module);
        }
    }

    /// Gives a dependency an id, drawn from `ids`, and stores it, unless it
    /// has one already; returns its id.
    pub fn add_dependency(&mut self, dep: ModuleDependency, ids: &mut DependencyIdAllocator) -> (id: DependencyId)
        requires
            old(self).wf(),
            old(ids).spec_issued() < usize::MAX,
        ensures
            final(self).wf(),
            Self::dependency_added(*old(self), *final(self), old(ids).spec_issued(), final(ids).spec_issued(), dep, id),
    {
        let mut dep = dep;
        if let Some(id) = dep.id() {
            return id;
        }
        let id = ids.allocate();
        dep.set_id(Some(id));
        map_insert(&mut self.dependency_id_to_dependency, id, dep);
        id
    }

    /// The dependency with this id.
    pub fn dependency_by_id(&self, id: &DependencyId) -> (r: Option<&ModuleDependency>)
        ensures
            deref_option(r) == lookup(self.dependency_map(), *id),
    {
        map_get(&self.dependency_id_to_dependency, id)
    }

    /// Uniquely identify a module by its dependency
    pub fn module_graph_module_by_dependency_id(&self, id: &DependencyId) -> (r: Option<&ModuleGraphModule>)
        ensures
            deref_option(r) == self.spec_module_graph_module_by_dependency_id(*id),
    {
        match self.module_identifier_by_dependency_id(id) {
            Some(module_identifier) => self.module_graph_module_by_identifier(module_identifier),
            None => None,
        }
    }

    /// The module that a dependency resolved to.
    pub fn module_identifier_by_dependency_id(&self, id: &DependencyId) -> (r: Option<&ModuleIdentifier>)
        ensures
            deref_option(r) == lookup(self.dependency_modules(), *id),
    {
        map_get(&self.dependency_id_to_module_identifier, id)
    }

    /// Uniquely identify a module by its identifier and return the aliased reference
    pub fn module_by_identifier(&self, identifier: &ModuleIdentifier) -> (r: Option<&Module>)
        ensures
            deref_option(r) == lookup(self.module_map(), *identifier),
    {
        map_get(&self.module_identifier_to_module, identifier)
    }

    /// The resource path of a normal module, by its identifier.
    pub fn normal_module_source_path_by_identifier(&self, identifier: &ModuleIdentifier) -> (r: Option<&str>)
        ensures
            match r {
                Some(path) => {
                    &&& self.module_map().contains_key(*identifier)
                    &&& self.module_map()[*identifier].resource_path matches Some(p) && p@ == path@
                },
                None => !self.module_map().contains_key(*identifier)
                    || self.module_map()[*identifier].resource_path is None,
            },
    {
        match map_get(&self.module_identifier_to_module, identifier) {
            Some(module) => match &module.resource_path {
                Some(path) => Some(path.as_str()),
                None => None,
            },
            None => None,
        }
    }

    /// Uniquely identify a module by its identifier and return the exclusive reference
    pub fn module_by_identifier_mut(&mut self, identifier: &ModuleIdentifier) -> (r: Option<&mut Module>)
        ensures
            old(self).wf() ==> final(self).wf(),
            final(self).same_except_modules(*old(self)),
            match r {
                Some(m) => {
                    &&& old(self).module_map().contains_key(*identifier)
                    &&& *m == old(self).module_map()[*identifier]
                    &&& final(self).module_map() == old(self).module_map().insert(*identifier, *final(m))
                },
                None => {
                    &&& !old(self).module_map().contains_key(*identifier)
                    &&& final(self).module_map() == old(self).module_map()
                },
            },
    {
        map_get_mut(&mut self.module_identifier_to_module, identifier)
    }

    /// Uniquely identify a module graph module by its module's identifier and
    /// return the aliased reference
    pub fn module_graph_module_by_identifier(&self, identifier: &ModuleIdentifier) -> (r: Option<&ModuleGraphModule>)
        ensures
            deref_option(r) == lookup(self.graph_module_map(), *identifier),
    {
        map_get(&self.module_identifier_to_module_graph_module, identifier)
    }

    /// Uniquely identify a module graph module by its module's identifier and
    /// return the exclusive reference
    pub fn module_graph_module_by_identifier_mut(&mut self, identifier: &ModuleIdentifier) -> (r: Option<&mut ModuleGraphModule>)
        ensures
            old(self).wf() ==> final(self).wf(),
            final(self).same_except_graph_modules(*old(self)),
            match r {
                Some(m) => {
                    &&& old(self).graph_module_map().contains_key(*identifier)
                    &&& *m == old(self).graph_module_map()[*identifier]
                    &&& final(self).graph_module_map() == old(self).graph_module_map().insert(*identifier, *final(m))
                },
                None => {
                    &&& !old(self).graph_module_map().contains_key(*identifier)
                    &&& final(self).graph_module_map() == old(self).graph_module_map()
                },
            },
    {
        map_get_mut(&mut self.module_identifier_to_module_graph_module, identifier)
    }

    /// Add a connection between two module graph modules, if a connection
    /// exists, then it will be reused.
    pub fn set_resolved_module(
        &mut self,
        original_module_identifier: Option<ModuleIdentifier>,
        dependency_id: DependencyId,
        module_identifier: ModuleIdentifier,
    ) -> (r: Result<(), ModuleGraphError>)
        requires
            old(self).wf(),
            old(self).connection_ids_issued() < usize::MAX,
        ensures
            final(self).wf(),
            Self::resolved_module_set(*old(self), *final(self), original_module_identifier, dependency_id, module_identifier, r),
    {
        let ghost pre = *self;
        map_insert(&mut self.dependency_id_to_module_identifier, dependency_id, module_identifier);
        let new_id = ConnectionId(self.next_connection_id);
        self.next_connection_id = self.next_connection_id + 1;
        let new_connection = ModuleGraphConnection {
            original_module_identifier,
            module_identifier,
            dependency_id,
            id: new_id,
        };
        let key = new_connection.key();
        let connection_id = match map_get(&self.connections, &key) {
            Some(id) => *id,
            None => {
                proof {
                    assert(!pre.connection_map().contains_key(new_id));
                }
                map_insert(&mut self.connections, key, new_id);
                map_insert(&mut self.connection_id_to_connection, new_id, new_connection);
                new_id
            },
        };
        proof {
            let conn = pre.resolved_connection(original_module_identifier, dependency_id, module_identifier);
            assert(conn.id == connection_id);
            assert(self.connection_map() =~= pre.connection_map().insert(connection_id, conn));
            assert(self.connection_keys() =~= pre.connection_keys().insert(key, connection_id));
        }
        map_insert(&mut self.dependency_id_to_connection_id, dependency_id, connection_id);
        map_insert(&mut self.connection_id_to_dependency_id, connection_id, dependency_id);
        match self.module_graph_module_by_identifier_mut(&module_identifier) {
            Some(mgm) => {
                mgm.add_incoming_connection(connection_id);
            },
            None => {
                return Err(ModuleGraphError::ModuleNotFound(module_identifier));
            },
        }
        if let Some(identifier) = original_module_identifier {
            if let Some(original_mgm) = self.module_graph_module_by_identifier_mut(&identifier) {
                original_mgm.add_outgoing_connection(connection_id);
            }
        }
        proof {
            assert(self.graph_module_map().dom() =~= pre.graph_module_map().dom());
        }
        Ok(())
    }

    /// Uniquely identify a connection by a given dependency
    pub fn connection_by_dependency(&self, dependency_id: &DependencyId) -> (r: Option<&ModuleGraphConnection>)
        ensures
            deref_option(r) == self.spec_connection_by_dependency(*dependency_id),
    {
        match map_get(&self.dependency_id_to_connection_id, dependency_id) {
            Some(id) => map_get(&self.connection_id_to_connection, id),
            None => None,
        }
    }

    /// Get a list of all dependencies of a module by the module itself, if the
    /// module is not found, then None is returned
    pub fn dependencies_by_module(&self, module: &Module) -> (r: Option<&[DependencyId]>)
        ensures
            match r {
                Some(deps) => {
                    &&& self.graph_module_map().contains_key(module.identifier)
                    &&& deps@ == self.graph_module_map()[module.identifier].dependencies@
                },
                None => !self.graph_module_map().contains_key(module.identifier),
            },
    {
        self.dependencies_by_module_identifier(&module.identifier())
    }

    /// Get a list of all dependencies of a module by the module identifier, if
    /// the module is not found, then None is returned
    pub fn dependencies_by_module_identifier(&self, module_identifier: &ModuleIdentifier) -> (r: Option<&[DependencyId]>)
        ensures
            match r {
                Some(deps) => {
                    &&& self.graph_module_map().contains_key(*module_identifier)
                    &&& deps@ == self.graph_module_map()[*module_identifier].dependencies@
                },
                None => !self.graph_module_map().contains_key(*module_identifier),
            },
    {
        match self.module_graph_module_by_identifier(module_identifier) {
            Some(mgm) => Some(mgm.dependencies.as_slice()),
            None => None,
        }
    }

    /// The dependency of a connection.
    pub fn dependency_by_connection(&self, connection: &ModuleGraphConnection) -> (r: Option<&ModuleDependency>)
        ensures
            deref_option(r) == self.spec_dependency_by_connection_id(connection.id),
    {
        self.dependency_by_connection_id(&connection.id)
    }

    /// The dependency of a connection, by the connection's id.
    pub fn dependency_by_connection_id(&self, connection_id: &ConnectionId) -> (r: Option<&ModuleDependency>)
        ensures
            deref_option(r) == self.spec_dependency_by_connection_id(*connection_id),
    {
        match map_get(&self.connection_id_to_dependency_id, connection_id) {
            Some(id) => map_get(&self.dependency_id_to_dependency, id),
            None => None,
        }
    }

    /// The connection with this id.
    pub fn connection_by_connection_id(&self, connection_id: &ConnectionId) -> (r: Option<&ModuleGraphConnection>)
        ensures
            deref_option(r) == lookup(self.connection_map(), *connection_id),
    {
        map_get(&self.connection_id_to_connection, connection_id)
    }

    /// Removes the connection of a dependency, and the dependency with it;
    /// returns the connection.
    pub fn remove_connection_by_dependency(&mut self, id: &DependencyId) -> (r: Option<ModuleGraphConnection>)
        requires
            old(self).wf(),
        ensures
            final(self).wf(),
            Self::connection_removed_by_dependency(*old(self), *final(self), *id, r),
    {
        let ghost pre = *self;
        let mut removed = None;
        if let Some(conn_id) = map_remove(&mut self.dependency_id_to_connection_id, id) {
            map_remove(&mut self.connection_id_to_dependency_id, &conn_id);
            if let Some(conn) = map_remove(&mut self.connection_id_to_connection, &conn_id) {
                let key = conn.key();
                map_remove(&mut self.connections, &key);
                if let Some(original) = conn.original_module_identifier {
                    if let Some(mgm) = self.module_graph_module_by_identifier_mut(&original) {
                        set_remove(&mut mgm.outgoing_connections, &conn.id);
                    }
                }
                if let Some(mgm) = self.module_graph_module_by_identifier_mut(&conn.module_identifier) {
                    set_remove(&mut mgm.incoming_connections, &conn.id);
                }
                proof {
                    assert forall|c: ConnectionId| #[trigger] self.connection_map().contains_key(c) implies
                        self.connection_keys().contains_key(self.connection_map()[c].spec_key())
                    by {
                        assert(pre.connection_keys()[pre.connection_map()[c].spec_key()] == c);
                    }
                }
                removed = Some(conn);
            }
        }
        map_remove(&mut self.dependency_id_to_module_identifier, id);
        map_remove(&mut self.dependency_id_to_dependency, id);
        proof {
            assert(self.graph_module_map().dom() =~= pre.graph_module_map().dom());
            let had = pre.dependency_connections().contains_key(*id);
            let cid = pre.dependency_connections()[*id];
            let live = had && pre.connection_map().contains_key(cid);
            if !had {
                assert(self.connection_dependencies() =~= pre.connection_dependencies());
                assert(self.connection_map() =~= pre.connection_map());
                assert(self.connection_keys() =~= pre.connection_keys());
            } else if !live {
                assert(self.connection_map() =~= pre.connection_map());
                assert(self.connection_keys() =~= pre.connection_keys());
            }
        }
        removed
    }

    /// The pre-order index recorded for a module.
    pub fn get_pre_order_index(&self, module_identifier: &ModuleIdentifier) -> (r: Option<usize>)
        ensures
            r == (match lookup(self.graph_module_map(), *module_identifier) {
                Some(mgm) => mgm.pre_order_index,
                None => None,
            }),
    {
        match self.module_graph_module_by_identifier(module_identifier) {
            Some(mgm) => mgm.pre_order_index,
            None => None,
        }
    }

    /// The module that issued `module`, where the graph knows both.
    pub fn get_issuer(&self, module: &Module) -> (r: Option<&Module>)
        ensures
            deref_option(r) == (match lookup(self.graph_module_map(), module.identifier) {
                Some(mgm) => match mgm.issuer {
                    ModuleIssuer::Issuer(id) => lookup(self.module_map(), id),
                    _ => None,
                },
                None => None,
            }),
    {
        match self.module_graph_module_by_identifier(&module.identifier()) {
            Some(mgm) => mgm.get_issuer().get_module(self),
            None => None,
        }
    }

    /// The outgoing connections of `module` that the graph holds, once each
    /// and in no particular order; none when the module has no module graph
    /// module.
    pub fn get_outgoing_connections(&self, module: &Module) -> (r: Vec<ModuleGraphConnection>)
        ensures
            self.outgoing_connections_listed(module.identifier, r@),
    {
        let mut result: Vec<ModuleGraphConnection> = Vec::new();
        match self.module_graph_module_by_identifier(&module.identifier()) {
            Some(mgm) => {
                let ids = set_elements(&mgm.outgoing_connections);
                let ghost out_set = mgm.outgoing_connections@;
                let ghost mut order: Seq<ConnectionId> = Seq::empty();
                let ghost conn_of = |c: ConnectionId| self.connection_map()[c];
                let mut i: usize = 0;
                assert(order.to_set() =~= self.live_connections(ids@.take(0).to_set()));
                while i < ids.len()
                    invariant
                        0 <= i <= ids@.len(),
                        ids@.no_duplicates(),
                        ids@.to_set() == out_set,
                        conn_of == (|c: ConnectionId| self.connection_map()[c]),
                        order.no_duplicates(),
                        order.to_set() == self.live_connections(ids@.take(i as int).to_set()),
                        result@ == order.map_values(conn_of),
                    decreases ids@.len() - i,
                {
                    let c = ids[i];
                    let ghost done = ids@.take(i as int).to_set();
                    assert(!done.contains(c)) by {
                        if done.contains(c) {
                            let k = choose|k: int| 0 <= k < i && ids@.take(i as int)[k] == c;
                            assert(ids@[k] == ids@[i as int]);
                        }
                    }
                    proof {
                        assert(ids@.take(i + 1) =~= ids@.take(i as int).push(c));
                        ids@.take(i as int).lemma_push_to_set_commute(c);
                    }
                    match self.connection_by_connection_id(&c) {
                        Some(conn) => {
                            proof {
                                assert(!self.live_connections(done).contains(c));
                                assert(!order.contains(c));
                                order.lemma_push_to_set_commute(c);
                                order = order.push(c);
                                assert(order.to_set() =~= self.live_connections(done.insert(c)));
                            }
                            result.push(*conn);
                            proof {
                                assert(result@ =~= order.map_values(conn_of));
                            }
                        },
                        None => {
                            proof {
                                assert(self.live_connections(done.insert(c)) =~= self.live_connections(done));
                            }
                        },
                    }
                    i = i + 1;
                }
                proof {
                    assert(ids@.take(ids@.len() as int) =~= ids@);
                }
                result
            },
            None => {
                proof {
                    let order = Seq::<ConnectionId>::empty();
                    assert(order.to_set() =~= Set::empty());
                    assert(result@ =~= order.map_values(|c: ConnectionId| self.connection_map()[c]));
                }
                result
            },
        }
    }

    /// Records the hash of a module, where it has a module graph module.
    pub fn set_module_hash(&mut self, module_identifier: &ModuleIdentifier, hash: u64)
        ensures
            old(self).wf() ==> final(self).wf(),
            Self::module_hash_set(*old(self), *final(self), *module_identifier, hash),
    {
        if let Some(mgm) = self.module_graph_module_by_identifier_mut(module_identifier) {
            mgm.hash = Some(hash);
        }
        proof {
            assert(self.graph_module_map().dom() =~= old(self).graph_module_map().dom());
        }
    }

    /// The hash recorded for a module.
    pub fn get_module_hash(&self, module_identifier: &ModuleIdentifier) -> (r: Option<u64>)
        ensures
            r == self.spec_module_hash(*module_identifier),
    {
        match self.module_graph_module_by_identifier(module_identifier) {
            Some(mgm) => mgm.hash,
            None => None,
        }
    }

    /// Remove a connection and return connection origin module identifier and dependency
    fn revoke_connection(&mut self, cid: ConnectionId) -> (r: Option<(Option<ModuleIdentifier>, DependencyId)>)
        requires
            old(self).wf(),
        ensures
            final(self).wf(),
            Self::connections_revoked(*old(self), *final(self), set![cid]),
            final(self).module_map() == old(self).module_map(),
            final(self).graph_module_map().dom() == old(self).graph_module_map().dom(),
            r == (if old(self).connection_map().contains_key(cid) {
                Some(old(self).connection_map()[cid].origin_and_dependency())
            } else {
                None::<(Option<ModuleIdentifier>, DependencyId)>
            }),
    {
        let ghost pre = *self;
        let ghost conns = pre.connection_map();
        let connection = match map_remove(&mut self.connection_id_to_connection, &cid) {
            Some(c) => c,
            None => {
                proof {
                    let live = pre.live_connections(set![cid]);
                    assert(live =~= Set::empty());
                    assert(live.map(|c: ConnectionId| conns[c].spec_key()) =~= Set::empty());
                    assert(live.map(|c: ConnectionId| conns[c].dependency_id) =~= Set::empty());
                    assert(self.connection_map() =~= conns.remove_keys(live));
                    assert(self.connection_keys() =~= pre.connection_keys().remove_keys(
                        live.map(|c: ConnectionId| conns[c].spec_key())));
                    assert(self.dependency_connections() =~= pre.dependency_connections().remove_keys(
                        live.map(|c: ConnectionId| conns[c].dependency_id)));
                    assert(self.dependency_modules() =~= pre.dependency_modules().remove_keys(
                        live.map(|c: ConnectionId| conns[c].dependency_id)));
                    assert forall|m: ModuleIdentifier| #[trigger] self.graph_module_map().contains_key(m) implies
                        self.graph_module_map()[m].incoming_connections@ =~= self.graph_module_map()[m].incoming_connections@.difference(
                            live.filter(|c: ConnectionId| conns[c].module_identifier == m))
                        && self.graph_module_map()[m].outgoing_connections@ =~= self.graph_module_map()[m].outgoing_connections@.difference(
                            live.filter(|c: ConnectionId| conns[c].original_module_identifier == Some(m)))
                    by {}
                }
                return None;
            },
        };
        let key = connection.key();
        map_remove(&mut self.connections, &key);
        // remove dependency
        map_remove(&mut self.dependency_id_to_connection_id, &connection.dependency_id);
        map_remove(&mut self.dependency_id_to_module_identifier, &connection.dependency_id);
        // remove outgoing from original module graph module
        if let Some(original_module_identifier) = connection.original_module_identifier {
            if let Some(mgm) = map_get_mut(&mut self.module_identifier_to_module_graph_module, &original_module_identifier) {
                set_remove(&mut mgm.outgoing_connections, &cid);
            }
        }
        // remove incoming from module graph module
        if let Some(mgm) = map_get_mut(&mut self.module_identifier_to_module_graph_module, &connection.module_identifier) {
            set_remove(&mut mgm.incoming_connections, &cid);
        }
        proof {
            let live = pre.live_connections(set![cid]);
            assert(live =~= set![cid]);
            assert(live.contains(cid));
            assert(live.map(|c: ConnectionId| conns[c].spec_key()) =~= set![key]) by {
                assert(live.map(|c: ConnectionId| conns[c].spec_key()).contains(key));
            }
            assert(live.map(|c: ConnectionId| conns[c].dependency_id) =~= set![connection.dependency_id]) by {
                assert(live.map(|c: ConnectionId| conns[c].dependency_id).contains(connection.dependency_id));
            }
            assert(self.connection_map() =~= conns.remove_keys(live));
            assert(self.connection_keys() =~= pre.connection_keys().remove_keys(
                live.map(|c: ConnectionId| conns[c].spec_key())));
            assert(self.dependency_connections() =~= pre.dependency_connections().remove_keys(
                live.map(|c: ConnectionId| conns[c].dependency_id)));
            assert(self.dependency_modules() =~= pre.dependency_modules().remove_keys(
                live.map(|c: ConnectionId| conns[c].dependency_id)));
            assert forall|m: ModuleIdentifier| #[trigger] self.graph_module_map().contains_key(m) implies
                self.graph_module_map()[m].incoming_connections@ =~= pre.graph_module_map()[m].incoming_connections@.difference(
                    live.filter(|c: ConnectionId| conns[c].module_identifier == m))
                && self.graph_module_map()[m].outgoing_connections@ =~= pre.graph_module_map()[m].outgoing_connections@.difference(
                    live.filter(|c: ConnectionId| conns[c].original_module_identifier == Some(m)))
                && self.graph_module_map()[m].same_except_connections(pre.graph_module_map()[m])
            by {
                if m == connection.module_identifier {
                    assert(live.filter(|c: ConnectionId| conns[c].module_identifier == m) =~= set![cid]);
                } else {
                    assert(live.filter(|c: ConnectionId| conns[c].module_identifier == m) =~= Set::empty());
                }
                if connection.original_module_identifier == Some(m) {
                    assert(live.filter(|c: ConnectionId| conns[c].original_module_identifier == Some(m)) =~= set![cid]);
                } else {
                    assert(live.filter(|c: ConnectionId| conns[c].original_module_identifier == Some(m)) =~= Set::empty());
                }
            }
            assert(self.graph_module_map().dom() =~= pre.graph_module_map().dom());
            assert forall|c: ConnectionId| #[trigger] self.connection_map().contains_key(c) implies
                self.connection_keys().contains_key(self.connection_map()[c].spec_key())
            by {
                assert(pre.connection_keys()[conns[c].spec_key()] == c);
            }
        }
        Some((connection.original_module_identifier, connection.dependency_id))
    }

    /// Remove module from module graph and return parent module identifier and dependency pair
    pub fn revoke_module(&mut self, module_identifier: &ModuleIdentifier) -> (r: Vec<(Option<ModuleIdentifier>, DependencyId)>)
        requires
            old(self).wf(),
        ensures
            final(self).wf(),
            Self::module_revoked(*old(self), *final(self), *module_identifier, r@),
    {
        let ghost pre = *self;
        map_remove(&mut self.module_identifier_to_module, module_identifier);
        let mgm = map_remove(&mut self.module_identifier_to_module_graph_module, module_identifier);
        proof {
            lemma_nothing_revoked(pre, *self);
            assert(self.graph_module_map().dom() =~= pre.graph_module_map().dom().remove(*module_identifier));
        }
        match mgm {
            Some(mgm) => {
                let ghost out_set = mgm.outgoing_connections@;
                let ghost in_set = mgm.incoming_connections@;
                let outgoing = set_elements(&mgm.outgoing_connections);
                let mut i: usize = 0;
                assert(outgoing@.take(0).to_set() =~= Set::<ConnectionId>::empty());
                while i < outgoing.len()
                    invariant
                        self.wf(),
                        0 <= i <= outgoing@.len(),
                        Self::connections_revoked(pre, *self, outgoing@.take(i as int).to_set()),
                        self.module_map() == pre.module_map().remove(*module_identifier),
                        self.graph_module_map().dom() == pre.graph_module_map().dom().remove(*module_identifier),
                    decreases outgoing@.len() - i,
                {
                    let ghost before = *self;
                    let c = outgoing[i];
                    self.revoke_connection(c);
                    proof {
                        lemma_revocations_compose(pre, before, *self, outgoing@.take(i as int).to_set(), c);
                        assert(outgoing@.take(i + 1) =~= outgoing@.take(i as int).push(c));
                        outgoing@.take(i as int).lemma_push_to_set_commute(c);
                    }
                    i = i + 1;
                }
                assert(outgoing@.take(outgoing@.len() as int) =~= outgoing@);
                let incoming = set_elements(&mgm.incoming_connections);
                let mut result: Vec<(Option<ModuleIdentifier>, DependencyId)> = Vec::new();
                let ghost mut order: Seq<ConnectionId> = Seq::empty();
                let ghost dep_of = |c: ConnectionId| pre.connection_map()[c].origin_and_dependency();
                let mut j: usize = 0;
                assert(incoming@.take(0).to_set() =~= Set::<ConnectionId>::empty());
                assert(out_set.union(Set::empty()) =~= out_set);
                assert(order.to_set() =~= pre.live_connections(Set::<ConnectionId>::empty().difference(out_set)));
                while j < incoming.len()
                    invariant
                        self.wf(),
                        0 <= j <= incoming@.len(),
                        incoming@.no_duplicates(),
                        incoming@.to_set() == in_set,
                        outgoing@.to_set() == out_set,
                        dep_of == (|c: ConnectionId| pre.connection_map()[c].origin_and_dependency()),
                        Self::connections_revoked(pre, *self, out_set.union(incoming@.take(j as int).to_set())),
                        self.module_map() == pre.module_map().remove(*module_identifier),
                        self.graph_module_map().dom() == pre.graph_module_map().dom().remove(*module_identifier),
                        order.no_duplicates(),
                        order.to_set() == pre.live_connections(incoming@.take(j as int).to_set().difference(out_set)),
                        result@ == order.map_values(dep_of),
                    decreases incoming@.len() - j,
                {
                    let ghost before = *self;
                    let c = incoming[j];
                    let ghost done = incoming@.take(j as int).to_set();
                    assert(!done.contains(c)) by {
                        if done.contains(c) {
                            let k = choose|k: int| 0 <= k < j && incoming@.take(j as int)[k] == c;
                            assert(incoming@[k] == incoming@[j as int]);
                        }
                    }
                    let revoked = self.revoke_connection(c);
                    proof {
                        lemma_revocations_compose(pre, before, *self, out_set.union(done), c);
                        assert(incoming@.take(j + 1) =~= incoming@.take(j as int).push(c));
                        incoming@.take(j as int).lemma_push_to_set_commute(c);
                        assert(out_set.union(done).insert(c) =~= out_set.union(done.insert(c)));
                    }
                    match revoked {
                        Some(d) => {
                            proof {
                                assert(pre.live_connections(done.difference(out_set)).contains(c) == false);
                                order.lemma_push_to_set_commute(c);
                                order = order.push(c);
                                assert(order.to_set() =~= pre.live_connections(done.insert(c).difference(out_set)));
                            }
                            result.push(d);
                            proof {
                                assert(result@ =~= order.map_values(dep_of));
                            }
                        },
                        None => {
                            proof {
                                assert(pre.live_connections(done.insert(c).difference(out_set))
                                    =~= pre.live_connections(done.difference(out_set)));
                            }
                        },
                    }
                    j = j + 1;
                }
                proof {
                    assert(incoming@.take(incoming@.len() as int) =~= incoming@);
                    assert(out_set.union(in_set) =~= out_set.union(incoming@.to_set()));
                    assert(in_set.difference(out_set) =~= incoming@.to_set().difference(out_set));
                }
                result
            },
            None => Vec::new(),
        }
    }
}

impl Default for ModuleGraph {
    /// An empty graph.
    fn default() -> (g: Self)
        ensures
            g.wf(),
            g.dependency_modules().is_empty(),
            g.module_map().is_empty(),
            g.graph_module_map().is_empty(),
            g.dependency_connections().is_empty(),
            g.connection_dependencies().is_empty(),
            g.dependency_map().is_empty(),
            g.connection_keys().is_empty(),
            g.connection_map().is_empty(),
            g.connection_ids_issued() == 0,
    {
        Self::new()
    }
}

impl ModuleIssuer {
    /// The issuing module, where there is one and the graph holds it.
    pub fn get_module<'a>(&self, module_graph: &'a ModuleGraph) -> (r: Option<&'a Module>)
        ensures
            deref_option(r) == (match *self {
                ModuleIssuer::Issuer(id) => lookup(module_graph.module_map(), id),
                _ => None,
            }),
    {
        match self {
            ModuleIssuer::Issuer(id) => module_graph.module_by_identifier(id),
            _ => None,
        }
    }
}

/// Revoking the connections among `s` and then those among `{x}` revokes
/// the connections among `s + {x}`.
proof fn lemma_revocations_compose(a: ModuleGraph, b: ModuleGraph, c: ModuleGraph, s: Set<ConnectionId>, x: ConnectionId)
    requires
        ModuleGraph::connections_revoked(a, b, s),
        ModuleGraph::connections_revoked(b, c, set![x]),
    ensures
        ModuleGraph::connections_revoked(a, c, s.insert(x)),
{
    let conns = a.connection_map();
    let la = a.live_connections(s);
    let lb = b.live_connections(set![x]);
    let l = a.live_connections(s.insert(x));
    let key_a = |c: ConnectionId| conns[c].spec_key();
    let key_b = |c: ConnectionId| b.connection_map()[c].spec_key();
    let dep_a = |c: ConnectionId| conns[c].dependency_id;
    let dep_b = |c: ConnectionId| b.connection_map()[c].dependency_id;
    assert(l =~= la.union(lb));
    assert(lb.map(key_b) =~= lb.map(key_a)) by {
        assert forall|k: ConnectionKey| lb.map(key_a).contains(k) implies lb.map(key_b).contains(k) by {
            let w = choose|w: ConnectionId| lb.contains(w) && k == key_a(w);
            assert(lb.contains(w) && k == key_b(w));
        }
    }
    assert(lb.map(dep_b) =~= lb.map(dep_a)) by {
        assert forall|d: DependencyId| lb.map(dep_a).contains(d) implies lb.map(dep_b).contains(d) by {
            let w = choose|w: ConnectionId| lb.contains(w) && d == dep_a(w);
            assert(lb.contains(w) && d == dep_b(w));
        }
    }
    assert(l.map(key_a) =~= la.map(key_a).union(lb.map(key_a))) by {
        assert forall|k: ConnectionKey| l.map(key_a).contains(k) implies la.map(key_a).union(lb.map(key_a)).contains(k) by {
            let w = choose|w: ConnectionId| l.contains(w) && k == key_a(w);
            if la.contains(w) {
                assert(la.map(key_a).contains(k));
            } else {
                assert(lb.map(key_a).contains(k));
            }
        }
        assert forall|k: ConnectionKey| la.map(key_a).union(lb.map(key_a)).contains(k) implies l.map(key_a).contains(k) by {
            if la.map(key_a).contains(k) {
                let w = choose|w: ConnectionId| la.contains(w) && k == key_a(w);
                assert(l.contains(w));
            } else {
                let w = choose|w: ConnectionId| lb.contains(w) && k == key_a(w);
                assert(l.contains(w));
            }
        }
    }
    assert(l.map(dep_a) =~= la.map(dep_a).union(lb.map(dep_a))) by {
        assert forall|d: DependencyId| l.map(dep_a).contains(d) implies la.map(dep_a).union(lb.map(dep_a)).contains(d) by {
            let w = choose|w: ConnectionId| l.contains(w) && d == dep_a(w);
            if la.contains(w) {
                assert(la.map(dep_a).contains(d));
            } else {
                assert(lb.map(dep_a).contains(d));
            }
        }
        assert forall|d: DependencyId| la.map(dep_a).union(lb.map(dep_a)).contains(d) implies l.map(dep_a).contains(d) by {
            if la.map(dep_a).contains(d) {
                let w = choose|w: ConnectionId| la.contains(w) && d == dep_a(w);
                assert(l.contains(w));
            } else {
                let w = choose|w: ConnectionId| lb.contains(w) && d == dep_a(w);
                assert(l.contains(w));
            }
        }
    }
    assert(c.connection_map() =~= conns.remove_keys(l));
    assert(c.connection_keys() =~= a.connection_keys().remove_keys(l.map(key_a)));
    assert(c.dependency_connections() =~= a.dependency_connections().remove_keys(l.map(dep_a)));
    assert(c.dependency_modules() =~= a.dependency_modules().remove_keys(l.map(dep_a)));
    assert forall|m: ModuleIdentifier| #[trigger] c.graph_module_map().contains_key(m) implies {
        &&& a.graph_module_map().contains_key(m)
        &&& c.graph_module_map()[m].same_except_connections(a.graph_module_map()[m])
        &&& c.graph_module_map()[m].incoming_connections@ == a.graph_module_map()[m].incoming_connections@.difference(
            l.filter(|c: ConnectionId| conns[c].module_identifier == m))
        &&& c.graph_module_map()[m].outgoing_connections@ == a.graph_module_map()[m].outgoing_connections@.difference(
            l.filter(|c: ConnectionId| conns[c].original_module_identifier == Some(m)))
    } by {
        assert(b.graph_module_map().contains_key(m));
        assert(c.graph_module_map()[m].incoming_connections@ =~= a.graph_module_map()[m].incoming_connections@.difference(
            l.filter(|c: ConnectionId| conns[c].module_identifier == m)));
        assert(c.graph_module_map()[m].outgoing_connections@ =~= a.graph_module_map()[m].outgoing_connections@.difference(
            l.filter(|c: ConnectionId| conns[c].original_module_identifier == Some(m))));
    }
}

/// Removing module graph modules and modules revokes no connection.
proof fn lemma_nothing_revoked(a: ModuleGraph, b: ModuleGraph)
    requires
        b.connection_map() == a.connection_map(),
        b.connection_keys() == a.connection_keys(),
        b.dependency_connections() == a.dependency_connections(),
        b.dependency_modules() == a.dependency_modules(),
        b.connection_dependencies() == a.connection_dependencies(),
        b.dependency_map() == a.dependency_map(),
        b.connection_ids_issued() == a.connection_ids_issued(),
        forall|m: ModuleIdentifier| #[trigger] b.graph_module_map().contains_key(m) ==>
            a.graph_module_map().contains_key(m) && b.graph_module_map()[m] == a.graph_module_map()[m],
    ensures
        ModuleGraph::connections_revoked(a, b, Set::empty()),
{
    let conns = a.connection_map();
    let live = a.live_connections(Set::empty());
    assert(live =~= Set::empty());
    assert(live.map(|c: ConnectionId| conns[c].spec_key()) =~= Set::empty());
    assert(live.map(|c: ConnectionId| conns[c].dependency_id) =~= Set::empty());
    assert(b.connection_map() =~= conns.remove_keys(live));
    assert(b.connection_keys() =~= a.connection_keys().remove_keys(live.map(|c: ConnectionId| conns[c].spec_key())));
    assert(b.dependency_connections() =~= a.dependency_connections().remove_keys(live.map(|c: ConnectionId| conns[c].dependency_id)));
    assert(b.dependency_modules() =~= a.dependency_modules().remove_keys(live.map(|c: ConnectionId| conns[c].dependency_id)));
    assert forall|m: ModuleIdentifier| #[trigger] b.graph_module_map().contains_key(m) implies
        b.graph_module_map()[m].incoming_connections@ =~= a.graph_module_map()[m].incoming_connections@.difference(
            live.filter(|c: ConnectionId| conns[c].module_identifier == m))
        && b.graph_module_map()[m].outgoing_connections@ =~= a.graph_module_map()[m].outgoing_connections@.difference(
            live.filter(|c: ConnectionId| conns[c].original_module_identifier == Some(m)))
    by {}
}

} // verus!
