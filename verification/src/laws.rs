//! Properties of the module graph that span its operations.
use vstd::prelude::*;
use crate::context_dependency::{
    context_call_edits, context_resource_identifier, normalized_context, CommonJsRequireContextDependency,
    ContextOptions, ErrorSpan,
};
use crate::ids::{ConnectionId, ConnectionKey, DependencyId, ModuleIdentifier};
use crate::module::{Module, ModuleDependency, ModuleGraphConnection, ModuleGraphError, ModuleGraphModule};
use crate::module_graph::{lookup, ModuleGraph};

verus! {

/// After a dependency is resolved, whether or not the resolved module has a
/// module graph module, the graph answers for the dependency with the
/// resolved module and with a connection that has exactly that original
/// module, dependency and module, and the connection leads back to the
/// dependency.
pub proof fn law_resolution_reads_back(
    old: ModuleGraph,
    new: ModuleGraph,
    original_module_identifier: Option<ModuleIdentifier>,
    dependency_id: DependencyId,
    module_identifier: ModuleIdentifier,
    r: Result<(), ModuleGraphError>,
)
    requires
        old.wf(),
        ModuleGraph::resolved_module_set(old, new, original_module_identifier, dependency_id, module_identifier, r),
    ensures
        lookup(new.dependency_modules(), dependency_id) == Some(module_identifier),
        new.spec_connection_by_dependency(dependency_id) matches Some(c) && c.spec_key() == (ConnectionKey {
            original_module_identifier,
            dependency_id,
            module_identifier,
        }) && new.spec_dependency_by_connection_id(c.id) == lookup(old.dependency_map(), dependency_id),
{
}

/// Resolving a dependency reuses the connection that has the same original
/// module, dependency and module: its id is kept, and the connection table
/// and key table do not change.
pub proof fn law_resolution_reuses_connection(
    old: ModuleGraph,
    new: ModuleGraph,
    original_module_identifier: Option<ModuleIdentifier>,
    dependency_id: DependencyId,
    module_identifier: ModuleIdentifier,
    r: Result<(), ModuleGraphError>,
)
    requires
        old.wf(),
        old.connection_keys().contains_key(ConnectionKey { original_module_identifier, dependency_id, module_identifier }),
        ModuleGraph::resolved_module_set(old, new, original_module_identifier, dependency_id, module_identifier, r),
    ensures
        new.connection_map() == old.connection_map(),
        new.connection_keys() == old.connection_keys(),
        new.spec_connection_by_dependency(dependency_id) == Some(
            old.connection_map()[old.connection_keys()[ConnectionKey { original_module_identifier, dependency_id, module_identifier }]],
        ),
{
    let key = ConnectionKey { original_module_identifier, dependency_id, module_identifier };
    let cid = old.connection_keys()[key];
    assert(old.connection_map()[cid].id == cid);
    assert(old.connection_map()[cid] == old.resolved_connection(original_module_identifier, dependency_id, module_identifier));
    assert(new.connection_map() =~= old.connection_map());
    assert(new.connection_keys() =~= old.connection_keys());
}

/// Resolving the same dependency the same way twice leaves the second call
/// on the connection that the first made: the connection table and the
/// connection of the dependency are those after the first call.
pub proof fn law_resolution_is_idempotent(
    g0: ModuleGraph,
    g1: ModuleGraph,
    g2: ModuleGraph,
    original_module_identifier: Option<ModuleIdentifier>,
    dependency_id: DependencyId,
    module_identifier: ModuleIdentifier,
    r1: Result<(), ModuleGraphError>,
    r2: Result<(), ModuleGraphError>,
)
    requires
        g0.wf(),
        g1.wf(),
        ModuleGraph::resolved_module_set(g0, g1, original_module_identifier, dependency_id, module_identifier, r1),
        ModuleGraph::resolved_module_set(g1, g2, original_module_identifier, dependency_id, module_identifier, r2),
    ensures
        r1 == r2,
        g2.connection_map() == g1.connection_map(),
        g2.connection_keys() == g1.connection_keys(),
        g2.dependency_modules() == g1.dependency_modules(),
        g2.dependency_connections() == g1.dependency_connections(),
        g2.spec_connection_by_dependency(dependency_id) == g1.spec_connection_by_dependency(dependency_id),
        r1 is Ok ==> g2.graph_module_map().dom() == g1.graph_module_map().dom(),
        r1 is Ok ==> forall|m: ModuleIdentifier| #[trigger] g2.graph_module_map().contains_key(m) ==> {
            &&& g2.graph_module_map()[m].incoming_connections@ == g1.graph_module_map()[m].incoming_connections@
            &&& g2.graph_module_map()[m].outgoing_connections@ == g1.graph_module_map()[m].outgoing_connections@
        },
{
    let key = ConnectionKey { original_module_identifier, dependency_id, module_identifier };
    law_resolution_reuses_connection(g1, g2, original_module_identifier, dependency_id, module_identifier, r2);
    assert(g1.graph_module_map().dom() == g0.graph_module_map().dom());
    if let (Ok(u1), Ok(u2)) = (r1, r2) {
        assert(u1 == u2);
    }
    assert(g2.dependency_modules() =~= g1.dependency_modules());
    assert(g2.dependency_connections() =~= g1.dependency_connections());
    if r1 is Ok {
        let cid = g0.resolved_connection(original_module_identifier, dependency_id, module_identifier).id;
        assert(g1.resolved_connection(original_module_identifier, dependency_id, module_identifier).id == cid);
        assert forall|m: ModuleIdentifier| #[trigger] g2.graph_module_map().contains_key(m) implies {
            &&& g2.graph_module_map()[m].incoming_connections@ == g1.graph_module_map()[m].incoming_connections@
            &&& g2.graph_module_map()[m].outgoing_connections@ == g1.graph_module_map()[m].outgoing_connections@
        } by {
            assert(g1.graph_module_map().contains_key(m));
            assert(g0.graph_module_map().contains_key(m));
            assert(g2.graph_module_map()[m].incoming_connections@ =~= g1.graph_module_map()[m].incoming_connections@);
            assert(g2.graph_module_map()[m].outgoing_connections@ =~= g1.graph_module_map()[m].outgoing_connections@);
        }
    }
}

/// A successful resolution links the two modules: the connection is among
/// the incoming connections of the resolved module and, where the original
/// module has a module graph module, among its outgoing connections.  The
/// resolution fails exactly when the resolved module has no module graph
/// module.
pub proof fn law_resolution_links_modules(
    old: ModuleGraph,
    new: ModuleGraph,
    original_module_identifier: Option<ModuleIdentifier>,
    dependency_id: DependencyId,
    module_identifier: ModuleIdentifier,
    r: Result<(), ModuleGraphError>,
)
    requires
        old.wf(),
        ModuleGraph::resolved_module_set(old, new, original_module_identifier, dependency_id, module_identifier, r),
    ensures
        r is Ok <==> old.graph_module_map().contains_key(module_identifier),
        r is Ok ==> {
            let c = new.spec_connection_by_dependency(dependency_id)->0;
            &&& new.graph_module_map()[module_identifier].incoming_connections@.contains(c.id)
            &&& forall|o: ModuleIdentifier| original_module_identifier == Some(o) && new.graph_module_map().contains_key(o)
                ==> #[trigger] new.graph_module_map()[o].outgoing_connections@.contains(c.id)
        },
{
    law_resolution_reads_back(old, new, original_module_identifier, dependency_id, module_identifier, r);
}

/// Removing the connection of a dependency undoes what resolving the
/// dependency did to the connection tables: it hands back the connection
/// that the resolution made or reused, the dependency then has no module,
/// no connection and no entry, and the connection is among neither the
/// incoming connections of its module nor the outgoing connections of its
/// original module.  When the resolution made a new connection for a
/// dependency that had none, the connection table and the key table are
/// again what they were before the resolution.
pub proof fn law_removal_undoes_resolution(
    g0: ModuleGraph,
    g1: ModuleGraph,
    g2: ModuleGraph,
    original_module_identifier: Option<ModuleIdentifier>,
    dependency_id: DependencyId,
    module_identifier: ModuleIdentifier,
    r1: Result<(), ModuleGraphError>,
    r2: Option<ModuleGraphConnection>,
)
    requires
        g0.wf(),
        g1.wf(),
        ModuleGraph::resolved_module_set(g0, g1, original_module_identifier, dependency_id, module_identifier, r1),
        ModuleGraph::connection_removed_by_dependency(g1, g2, dependency_id, r2),
    ensures
        r2 == g1.spec_connection_by_dependency(dependency_id),
        r2 is Some,
        g2.spec_connection_by_dependency(dependency_id) is None,
        lookup(g2.dependency_modules(), dependency_id) is None,
        lookup(g2.dependency_map(), dependency_id) is None,
        g2.graph_module_map().contains_key(module_identifier)
            ==> !g2.graph_module_map()[module_identifier].incoming_connections@.contains(r2->0.id),
        forall|o: ModuleIdentifier| original_module_identifier == Some(o) && g2.graph_module_map().contains_key(o)
            ==> !(#[trigger] g2.graph_module_map()[o].outgoing_connections@.contains(r2->0.id)),
        !g0.connection_keys().contains_key(ConnectionKey { original_module_identifier, dependency_id, module_identifier })
            ==> g2.connection_map() == g0.connection_map() && g2.connection_keys() == g0.connection_keys(),
{
    law_resolution_reads_back(g0, g1, original_module_identifier, dependency_id, module_identifier, r1);
    let key = ConnectionKey { original_module_identifier, dependency_id, module_identifier };
    let conn = g0.resolved_connection(original_module_identifier, dependency_id, module_identifier);
    if !g0.connection_keys().contains_key(key) {
        assert(!g0.connection_map().contains_key(conn.id));
        assert(g2.connection_map() =~= g0.connection_map());
        assert(g2.connection_keys() =~= g0.connection_keys());
    }
}

/// A dependency without an id gets the allocator's next id, and the graph
/// then answers for that id with the dependency, carrying the id; a
/// dependency that has an id keeps it and leaves the graph and the allocator
/// as they were.
pub proof fn law_added_dependency_reads_back(
    old: ModuleGraph,
    new: ModuleGraph,
    old_issued: usize,
    new_issued: usize,
    dep: ModuleDependency,
    id: DependencyId,
)
    requires
        old.wf(),
        ModuleGraph::dependency_added(old, new, old_issued, new_issued, dep, id),
    ensures
        dep.id is None ==> {
            &&& id.0 == old_issued
            &&& lookup(new.dependency_map(), id) == Some(ModuleDependency { id: Some(id), ..dep })
        },
        dep.id matches Some(given) ==> id == given && new == old && new_issued == old_issued,
{
}

/// Two dependencies without ids, added one after the other with the same
/// allocator, to the same graph or to two graphs, get different ids: an id
/// drawn for one is never drawn again.
pub proof fn law_dependency_ids_are_fresh(
    g1: ModuleGraph,
    g1_after: ModuleGraph,
    g2: ModuleGraph,
    g2_after: ModuleGraph,
    issued_before_first: usize,
    issued_after_first: usize,
    issued_before_second: usize,
    issued_after_second: usize,
    d1: ModuleDependency,
    d2: ModuleDependency,
    id1: DependencyId,
    id2: DependencyId,
)
    requires
        d1.id is None,
        d2.id is None,
        ModuleGraph::dependency_added(g1, g1_after, issued_before_first, issued_after_first, d1, id1),
        issued_after_first <= issued_before_second,
        ModuleGraph::dependency_added(g2, g2_after, issued_before_second, issued_after_second, d2, id2),
    ensures
        id1 != id2,
{
}

/// Two context dependencies made one after the other with the same
/// allocator get different ids, whatever their arguments.
pub proof fn law_context_dependency_ids_are_fresh(
    d1: CommonJsRequireContextDependency,
    d2: CommonJsRequireContextDependency,
    callee_start: (u32, u32),
    callee_end: (u32, u32),
    args_end: (u32, u32),
    options: (ContextOptions, ContextOptions),
    span: (Option<ErrorSpan>, Option<ErrorSpan>),
    issued_before_first: usize,
    issued_after_first: usize,
    issued_before_second: usize,
    issued_after_second: usize,
)
    requires
        CommonJsRequireContextDependency::created(d1, callee_start.0, callee_end.0, args_end.0, options.0, span.0,
            issued_before_first, issued_after_first),
        issued_after_first <= issued_before_second,
        CommonJsRequireContextDependency::created(d2, callee_start.1, callee_end.1, args_end.1, options.1, span.1,
            issued_before_second, issued_after_second),
    ensures
        d1.spec_id() != d2.spec_id(),
{
}

/// A module added under an identifier that has none stays there: adding
/// another module under the same identifier keeps the first.
pub proof fn law_first_module_wins(g0: ModuleGraph, g1: ModuleGraph, g2: ModuleGraph, m1: Module, m2: Module)
    requires
        !g0.module_map().contains_key(m1.identifier),
        m1.identifier == m2.identifier,
        ModuleGraph::module_added(g0, g1, m1),
        ModuleGraph::module_added(g1, g2, m2),
    ensures
        lookup(g2.module_map(), m1.identifier) == Some(m1),
{
}

/// After the hash of a module is set, the graph reads it back for a module
/// with a module graph module and has none for any other.
pub proof fn law_module_hash_reads_back(old: ModuleGraph, new: ModuleGraph, module_identifier: ModuleIdentifier, hash: u64)
    requires
        ModuleGraph::module_hash_set(old, new, module_identifier, hash),
    ensures
        new.spec_module_hash(module_identifier) == (if old.graph_module_map().contains_key(module_identifier) {
            Some(hash)
        } else {
            None::<u64>
        }),
{
}

/// After a module is revoked the graph holds neither it nor its module
/// graph module, nor any of the connections that its module graph module
/// listed; every pair that the revocation returns is the origin module and
/// the dependency of one of its incoming connections, and that dependency
/// now has no module and no connection.
pub proof fn law_revoked_module_is_gone(old: ModuleGraph, new: ModuleGraph, module_identifier: ModuleIdentifier, r: Seq<(Option<ModuleIdentifier>, DependencyId)>)
    requires
        old.wf(),
        ModuleGraph::module_revoked(old, new, module_identifier, r),
    ensures
        !new.module_map().contains_key(module_identifier),
        !new.graph_module_map().contains_key(module_identifier),
        old.graph_module_map().contains_key(module_identifier) ==> {
            let mgm = old.graph_module_map()[module_identifier];
            &&& forall|c| #[trigger] mgm.outgoing_connections@.contains(c) ==> !new.connection_map().contains_key(c)
            &&& forall|c| #[trigger] mgm.incoming_connections@.contains(c) ==> !new.connection_map().contains_key(c)
            &&& forall|i: int| 0 <= i < r.len() ==> {
                &&& exists|c| #[trigger] mgm.incoming_connections@.contains(c) && old.connection_map().contains_key(c)
                    && old.connection_map()[c].origin_and_dependency() == r[i]
                &&& !new.dependency_modules().contains_key(r[i].1)
                &&& !new.dependency_connections().contains_key(r[i].1)
            }
        },
{
    if old.graph_module_map().contains_key(module_identifier) {
        let mgm = old.graph_module_map()[module_identifier];
        let outgoing = mgm.outgoing_connections@;
        let incoming = mgm.incoming_connections@;
        let live = old.live_connections(outgoing.union(incoming));
        let order = choose|order: Seq<_>| {
            &&& order.no_duplicates()
            &&& order.to_set() == old.live_connections(incoming.difference(outgoing))
            &&& r == order.map_values(|c: crate::ids::ConnectionId| old.connection_map()[c].origin_and_dependency())
        };
        assert forall|i: int| 0 <= i < r.len() implies {
            &&& exists|c| #[trigger] mgm.incoming_connections@.contains(c) && old.connection_map().contains_key(c)
                && old.connection_map()[c].origin_and_dependency() == r[i]
            &&& !new.dependency_modules().contains_key(r[i].1)
            &&& !new.dependency_connections().contains_key(r[i].1)
        } by {
            let c = order[i];
            assert(order.to_set().contains(c));
            assert(mgm.incoming_connections@.contains(c));
            assert(live.contains(c));
            assert(live.map(|c: crate::ids::ConnectionId| old.connection_map()[c].dependency_id).contains(r[i].1));
        }
    }
}

/// The connection of a dependency is a connection of that dependency, and
/// the graph holds it under its own id.
pub proof fn law_connection_of_dependency(g: ModuleGraph, dependency_id: DependencyId)
    requires
        g.wf(),
    ensures
        g.spec_connection_by_dependency(dependency_id) matches Some(c) ==> {
            &&& c.dependency_id == dependency_id
            &&& lookup(g.connection_map(), c.id) == Some(c)
        },
{
}

/// Where every module and every module graph module is stored under its
/// own identifier, looking one up by an identifier gives one with that
/// identifier.
pub proof fn law_keyed_lookup(g: ModuleGraph, identifier: ModuleIdentifier)
    ensures
        g.modules_keyed_by_identifier() ==> (lookup(g.module_map(), identifier) matches Some(m)
            ==> m.identifier == identifier),
        g.graph_modules_keyed_by_identifier() ==> (lookup(g.graph_module_map(), identifier) matches Some(m)
            ==> m.module_identifier == identifier),
{
}

/// An empty graph stores every module and module graph module under its
/// own identifier, and its connection sets are consistent.
pub proof fn law_empty_graph_is_keyed(g: ModuleGraph)
    requires
        g.module_map().is_empty(),
        g.graph_module_map().is_empty(),
    ensures
        g.modules_keyed_by_identifier(),
        g.graph_modules_keyed_by_identifier(),
        g.connection_sets_consistent(),
{
}

/// Consistent connection sets list only connections that the graph holds.
pub proof fn law_consistent_sets_are_registered(g: ModuleGraph)
    ensures
        g.connection_sets_consistent() ==> g.listed_connections_registered(),
{
}

/// Adding a module keeps every module and module graph module under its own
/// identifier and keeps the connection sets consistent.
pub proof fn law_added_module_keeps_keys(old: ModuleGraph, new: ModuleGraph, module: Module)
    requires
        ModuleGraph::module_added(old, new, module),
    ensures
        old.modules_keyed_by_identifier() ==> new.modules_keyed_by_identifier(),
        old.graph_modules_keyed_by_identifier() ==> new.graph_modules_keyed_by_identifier(),
        old.connection_sets_consistent() ==> new.connection_sets_consistent(),
{
}

/// Adding a module graph module keeps every module and module graph module
/// under its own identifier; where the added one lists no connections, or
/// is not stored because one is there already, the connection sets stay
/// consistent.
pub proof fn law_added_graph_module_keeps_keys(old: ModuleGraph, new: ModuleGraph, module_graph_module: ModuleGraphModule)
    requires
        ModuleGraph::graph_module_added(old, new, module_graph_module),
    ensures
        old.modules_keyed_by_identifier() ==> new.modules_keyed_by_identifier(),
        old.graph_modules_keyed_by_identifier() ==> new.graph_modules_keyed_by_identifier(),
        old.connection_sets_consistent() && (old.graph_module_map().contains_key(module_graph_module.module_identifier)
            || module_graph_module.incoming_connections@.is_empty() && module_graph_module.outgoing_connections@.is_empty())
            ==> new.connection_sets_consistent(),
{
}

/// Setting a hash keeps every module and module graph module under its own
/// identifier and keeps the connection sets consistent.
pub proof fn law_module_hash_set_keeps_keys(old: ModuleGraph, new: ModuleGraph, module_identifier: ModuleIdentifier, hash: u64)
    requires
        ModuleGraph::module_hash_set(old, new, module_identifier, hash),
    ensures
        old.modules_keyed_by_identifier() ==> new.modules_keyed_by_identifier(),
        old.graph_modules_keyed_by_identifier() ==> new.graph_modules_keyed_by_identifier(),
        old.connection_sets_consistent() ==> new.connection_sets_consistent(),
{
    if old.connection_sets_consistent() {
        assert forall|m: ModuleIdentifier, c: ConnectionId|
            #[trigger] new.graph_module_map().contains_key(m)
                && #[trigger] new.graph_module_map()[m].incoming_connections@.contains(c)
                implies new.connection_map().contains_key(c) && new.connection_map()[c].module_identifier == m
        by {
            assert(old.graph_module_map().contains_key(m));
            assert(old.graph_module_map()[m].incoming_connections@ == new.graph_module_map()[m].incoming_connections@);
            assert(old.graph_module_map()[m].outgoing_connections@ == new.graph_module_map()[m].outgoing_connections@);
        }
        assert forall|m: ModuleIdentifier, c: ConnectionId|
            #[trigger] new.graph_module_map().contains_key(m)
                && #[trigger] new.graph_module_map()[m].outgoing_connections@.contains(c)
                implies new.connection_map().contains_key(c) && new.connection_map()[c].original_module_identifier == Some(m)
        by {
            assert(old.graph_module_map().contains_key(m));
            assert(old.graph_module_map()[m].incoming_connections@ == new.graph_module_map()[m].incoming_connections@);
            assert(old.graph_module_map()[m].outgoing_connections@ == new.graph_module_map()[m].outgoing_connections@);
        }
    }
}

/// Adding a dependency leaves the modules and module graph modules alone.
pub proof fn law_added_dependency_keeps_modules(
    old: ModuleGraph,
    new: ModuleGraph,
    old_issued: usize,
    new_issued: usize,
    dep: ModuleDependency,
    id: DependencyId,
)
    requires
        ModuleGraph::dependency_added(old, new, old_issued, new_issued, dep, id),
    ensures
        new.module_map() == old.module_map(),
        new.graph_module_map() == old.graph_module_map(),
        new.connection_map() == old.connection_map(),
{
}

/// Resolving a dependency keeps every module and module graph module under
/// its own identifier, keeps the connection sets consistent, and keeps
/// every recorded hash.
pub proof fn law_resolution_keeps_graph_facts(
    old: ModuleGraph,
    new: ModuleGraph,
    original_module_identifier: Option<ModuleIdentifier>,
    dependency_id: DependencyId,
    module_identifier: ModuleIdentifier,
    r: Result<(), ModuleGraphError>,
)
    requires
        old.wf(),
        ModuleGraph::resolved_module_set(old, new, original_module_identifier, dependency_id, module_identifier, r),
    ensures
        old.modules_keyed_by_identifier() ==> new.modules_keyed_by_identifier(),
        old.graph_modules_keyed_by_identifier() ==> new.graph_modules_keyed_by_identifier(),
        old.connection_sets_consistent() ==> new.connection_sets_consistent(),
        forall|m: ModuleIdentifier| #[trigger] new.spec_module_hash(m) == old.spec_module_hash(m),
{
    let conn = old.resolved_connection(original_module_identifier, dependency_id, module_identifier);
    let cid = conn.id;
    if !old.connection_keys().contains_key(conn.spec_key()) {
        assert(!old.connection_map().contains_key(cid));
    } else {
        assert(old.connection_map()[cid] == conn);
    }
    assert forall|m: ModuleIdentifier| #[trigger] new.spec_module_hash(m) == old.spec_module_hash(m) by {
        if new.graph_module_map().contains_key(m) {
            assert(old.graph_module_map().contains_key(m));
        }
    }
    if old.connection_sets_consistent() {
        assert forall|m: ModuleIdentifier, c: ConnectionId|
            #[trigger] new.graph_module_map().contains_key(m)
                && #[trigger] new.graph_module_map()[m].incoming_connections@.contains(c)
                implies new.connection_map().contains_key(c) && new.connection_map()[c].module_identifier == m
        by {
            assert(old.graph_module_map().contains_key(m));
            if c != cid {
                assert(old.graph_module_map()[m].incoming_connections@.contains(c));
            }
        }
        assert forall|m: ModuleIdentifier, c: ConnectionId|
            #[trigger] new.graph_module_map().contains_key(m)
                && #[trigger] new.graph_module_map()[m].outgoing_connections@.contains(c)
                implies new.connection_map().contains_key(c) && new.connection_map()[c].original_module_identifier == Some(m)
        by {
            assert(old.graph_module_map().contains_key(m));
            if c != cid {
                assert(old.graph_module_map()[m].outgoing_connections@.contains(c));
            }
        }
    }
}

/// Removing the connection of a dependency keeps every module and module
/// graph module under its own identifier, keeps the connection sets
/// consistent, and keeps every recorded hash.
pub proof fn law_removal_keeps_graph_facts(
    old: ModuleGraph,
    new: ModuleGraph,
    dependency_id: DependencyId,
    r: Option<ModuleGraphConnection>,
)
    requires
        old.wf(),
        ModuleGraph::connection_removed_by_dependency(old, new, dependency_id, r),
    ensures
        old.modules_keyed_by_identifier() ==> new.modules_keyed_by_identifier(),
        old.graph_modules_keyed_by_identifier() ==> new.graph_modules_keyed_by_identifier(),
        old.connection_sets_consistent() ==> new.connection_sets_consistent(),
        forall|m: ModuleIdentifier| #[trigger] new.spec_module_hash(m) == old.spec_module_hash(m),
{
    assert forall|m: ModuleIdentifier| #[trigger] new.spec_module_hash(m) == old.spec_module_hash(m) by {
        if new.graph_module_map().contains_key(m) {
            assert(old.graph_module_map().contains_key(m));
        }
    }
    if old.connection_sets_consistent() {
        assert forall|m: ModuleIdentifier, c: ConnectionId|
            #[trigger] new.graph_module_map().contains_key(m)
                && #[trigger] new.graph_module_map()[m].incoming_connections@.contains(c)
                implies new.connection_map().contains_key(c) && new.connection_map()[c].module_identifier == m
        by {
            assert(old.graph_module_map().contains_key(m));
            assert(old.graph_module_map()[m].incoming_connections@.contains(c));
        }
        assert forall|m: ModuleIdentifier, c: ConnectionId|
            #[trigger] new.graph_module_map().contains_key(m)
                && #[trigger] new.graph_module_map()[m].outgoing_connections@.contains(c)
                implies new.connection_map().contains_key(c) && new.connection_map()[c].original_module_identifier == Some(m)
        by {
            assert(old.graph_module_map().contains_key(m));
            assert(old.graph_module_map()[m].outgoing_connections@.contains(c));
        }
    }
}

/// Revoking a module keeps every other module and module graph module
/// under its own identifier, keeps the connection sets consistent, and
/// keeps the recorded hash of every other module.
pub proof fn law_revocation_keeps_graph_facts(
    old: ModuleGraph,
    new: ModuleGraph,
    module_identifier: ModuleIdentifier,
    r: Seq<(Option<ModuleIdentifier>, DependencyId)>,
)
    requires
        old.wf(),
        ModuleGraph::module_revoked(old, new, module_identifier, r),
    ensures
        old.modules_keyed_by_identifier() ==> new.modules_keyed_by_identifier(),
        old.graph_modules_keyed_by_identifier() ==> new.graph_modules_keyed_by_identifier(),
        old.connection_sets_consistent() ==> new.connection_sets_consistent(),
        forall|m: ModuleIdentifier| m != module_identifier ==> #[trigger] new.spec_module_hash(m) == old.spec_module_hash(m),
{
    let cids = if old.graph_module_map().contains_key(module_identifier) {
        old.graph_module_map()[module_identifier].outgoing_connections@.union(
            old.graph_module_map()[module_identifier].incoming_connections@)
    } else {
        Set::empty()
    };
    assert(ModuleGraph::connections_revoked(old, new, cids));
    let live = old.live_connections(cids);
    let conns = old.connection_map();
    assert forall|m: ModuleIdentifier| m != module_identifier implies #[trigger] new.spec_module_hash(m) == old.spec_module_hash(m) by {
        if old.graph_module_map().contains_key(m) {
            assert(new.graph_module_map().dom().contains(m));
        }
    }
    if old.modules_keyed_by_identifier() {
        assert forall|m: ModuleIdentifier| #[trigger] new.module_map().contains_key(m) implies new.module_map()[m].identifier == m by {
            assert(old.module_map().contains_key(m));
        }
    }
    if old.connection_sets_consistent() {
        assert forall|m: ModuleIdentifier, c: ConnectionId|
            #[trigger] new.graph_module_map().contains_key(m)
                && #[trigger] new.graph_module_map()[m].incoming_connections@.contains(c)
                implies new.connection_map().contains_key(c) && new.connection_map()[c].module_identifier == m
        by {
            assert(old.graph_module_map().contains_key(m));
            assert(old.graph_module_map()[m].incoming_connections@.contains(c));
            assert(!live.filter(|x: ConnectionId| conns[x].module_identifier == m).contains(c));
        }
        assert forall|m: ModuleIdentifier, c: ConnectionId|
            #[trigger] new.graph_module_map().contains_key(m)
                && #[trigger] new.graph_module_map()[m].outgoing_connections@.contains(c)
                implies new.connection_map().contains_key(c) && new.connection_map()[c].original_module_identifier == Some(m)
        by {
            assert(old.graph_module_map().contains_key(m));
            assert(old.graph_module_map()[m].outgoing_connections@.contains(c));
            assert(!live.filter(|x: ConnectionId| conns[x].original_module_identifier == Some(m)).contains(c));
        }
    }
}

/// Removing the connection of a dependency right after resolving it, when
/// the resolution succeeded and made a new connection in a graph whose
/// module graph modules list only connections that it holds, hands back that connection and leaves
/// every module graph module with the connection sets it had before the
/// resolution; the graph no longer holds the connection.
pub proof fn law_removal_restores_connection_sets(
    g0: ModuleGraph,
    g1: ModuleGraph,
    g2: ModuleGraph,
    original_module_identifier: Option<ModuleIdentifier>,
    dependency_id: DependencyId,
    module_identifier: ModuleIdentifier,
    r1: Result<(), ModuleGraphError>,
    r2: Option<ModuleGraphConnection>,
)
    requires
        g0.wf(),
        g1.wf(),
        g0.listed_connections_registered(),
        !g0.connection_keys().contains_key(ConnectionKey { original_module_identifier, dependency_id, module_identifier }),
        r1 is Ok,
        ModuleGraph::resolved_module_set(g0, g1, original_module_identifier, dependency_id, module_identifier, r1),
        ModuleGraph::connection_removed_by_dependency(g1, g2, dependency_id, r2),
    ensures
        r2 matches Some(c) && c.spec_key() == (ConnectionKey { original_module_identifier, dependency_id, module_identifier })
            && !g2.connection_map().contains_key(c.id),
        g2.graph_module_map().dom() == g0.graph_module_map().dom(),
        forall|m: ModuleIdentifier| #[trigger] g2.graph_module_map().contains_key(m) ==> {
            &&& g2.graph_module_map()[m].incoming_connections@ == g0.graph_module_map()[m].incoming_connections@
            &&& g2.graph_module_map()[m].outgoing_connections@ == g0.graph_module_map()[m].outgoing_connections@
        },
{
    law_resolution_reads_back(g0, g1, original_module_identifier, dependency_id, module_identifier, r1);
    let conn = g0.resolved_connection(original_module_identifier, dependency_id, module_identifier);
    let cid = conn.id;
    assert(!g0.connection_map().contains_key(cid));
    assert forall|m: ModuleIdentifier| #[trigger] g2.graph_module_map().contains_key(m) implies {
        &&& g2.graph_module_map()[m].incoming_connections@ == g0.graph_module_map()[m].incoming_connections@
        &&& g2.graph_module_map()[m].outgoing_connections@ == g0.graph_module_map()[m].outgoing_connections@
    } by {
        assert(g1.graph_module_map().contains_key(m));
        assert(g0.graph_module_map().contains_key(m));
        assert(!g0.graph_module_map()[m].incoming_connections@.contains(cid));
        assert(!g0.graph_module_map()[m].outgoing_connections@.contains(cid));
        assert(g2.graph_module_map()[m].incoming_connections@ =~= g0.graph_module_map()[m].incoming_connections@);
        assert(g2.graph_module_map()[m].outgoing_connections@ =~= g0.graph_module_map()[m].outgoing_connections@);
    }
}

/// Text with the same beginning and end is the same text in between.
proof fn lemma_same_frame_same_middle(a: Seq<char>, m1: Seq<char>, m2: Seq<char>, b: Seq<char>)
    requires
        a + m1 + b == a + m2 + b,
    ensures
        m1 == m2,
{
    let t1 = a + m1 + b;
    let t2 = a + m2 + b;
    assert(t1.len() == a.len() + m1.len() + b.len());
    assert(t2.len() == a.len() + m2.len() + b.len());
    assert(m1.len() == m2.len());
    assert forall|i: int| 0 <= i < m1.len() implies m1[i] == m2[i] by {
        assert(t1[a.len() + i] == m1[i]);
        assert(t2[a.len() + i] == m2[i]);
    }
    assert(m1 =~= m2);
}

/// The regular expression of a context dependency is part of its resource
/// identifier: two option sets that differ only in the regular expression
/// give two identifiers, whatever the context and the include and exclude
/// patterns, so they are served by two context modules.
pub proof fn law_resource_identifier_separates_regexps(
    context: Option<Seq<char>>,
    options: ContextOptions,
    other: ContextOptions,
)
    requires
        other.reg_exp@ != options.reg_exp@,
        other.mode == options.mode,
        other.recursive == options.recursive,
        other.include_pattern == options.include_pattern,
        other.exclude_pattern == options.exclude_pattern,
        other.request@ == options.request@,
    ensures
        context_resource_identifier(context, options) != context_resource_identifier(context, other),
{
    let c = match context {
        Some(c) => c,
        None => Seq::empty(),
    };
    let head = |o: ContextOptions| "context"@ + c + "|ctx request"@ + o.request@ + " "@
        + crate::context_dependency::bool_text(o.recursive) + " "@;
    let tail = |o: ContextOptions| " "@ + crate::context_dependency::optional_text(o.include_pattern) + " "@
        + crate::context_dependency::optional_text(o.exclude_pattern) + " "@
        + crate::context_dependency::context_mode_name(o.mode);
    assert(context_resource_identifier(context, options) =~= head(options) + options.reg_exp@ + tail(options));
    assert(context_resource_identifier(context, other) =~= head(other) + other.reg_exp@ + tail(other));
    assert(head(options) == head(other));
    assert(tail(options) == tail(other));
    if context_resource_identifier(context, options) == context_resource_identifier(context, other) {
        lemma_same_frame_same_middle(head(options), options.reg_exp@, other.reg_exp@, tail(options));
    }
}

/// The normalized context of a request is empty exactly for the current
/// directory (`.` or `./`); otherwise it is the request with a trailing
/// slash, added when the request has none, so it always ends with `/`.
pub proof fn law_normalized_context_shape(request: Seq<char>)
    ensures
        normalized_context(request).len() == 0 <==> (request == seq!['.'] || request == seq!['.', '/']),
        normalized_context(request).len() > 0 ==> normalized_context(request).last() == '/',
        normalized_context(request).len() > 0 ==> {
            ||| normalized_context(request) == request
            ||| normalized_context(request) == request.push('/')
        },
        normalized_context(request).len() > 0 ==> normalized_context(request).drop_last() == request
            || normalized_context(request) == request,
        request.len() > 0 && request.last() == '/' && request != seq!['.', '/'] ==> normalized_context(request) == request,
        request.len() > 0 && request.last() != '/' && request != seq!['.'] ==> normalized_context(request) == request.push('/'),
{
    if request == seq!['.'] || request == seq!['.', '/'] {
    } else if request.len() > 0 && request.last() == '/' {
    } else {
        assert(request.push('/').drop_last() =~= request);
    }
}

/// The rewrite of a context call: unresolved, the whole call from the
/// callee's start to the arguments' end gives way to the expression;
/// resolved, the callee gives way to the expression, and the call is
/// wrapped (an `(` after the callee and a `.replace` of the context after
/// the arguments) exactly when the normalized context of the request is not
/// empty, the replaced context then being a non-empty prefix ending with `/`.
pub proof fn law_context_call_rewrite(
    callee_start: u32,
    callee_end: u32,
    args_end: u32,
    request: Seq<char>,
    resolved: bool,
    expr: Seq<char>,
)
    ensures
        !resolved ==> context_call_edits(callee_start, callee_end, args_end, request, resolved, expr)
            == seq![(callee_start, args_end, expr)],
        resolved ==> context_call_edits(callee_start, callee_end, args_end, request, resolved, expr)[0]
            == (callee_start, callee_end, expr),
        resolved ==> (context_call_edits(callee_start, callee_end, args_end, request, resolved, expr).len() == 1
            <==> normalized_context(request).len() == 0),
        resolved ==> (context_call_edits(callee_start, callee_end, args_end, request, resolved, expr).len() == 1
            <==> (request == seq!['.'] || request == seq!['.', '/'])),
        resolved && normalized_context(request).len() > 0 ==> {
            let edits = context_call_edits(callee_start, callee_end, args_end, request, resolved, expr);
            &&& edits.len() == 3
            &&& edits[1] == (callee_end, callee_end, "("@)
            &&& edits[2].0 == args_end && edits[2].1 == args_end
            &&& exists|context: Seq<char>| {
                &&& context.len() > 0
                &&& context.last() == '/'
                &&& edits[2].2 == ".replace('"@ + context + "', './'))"@
            }
        },
{
    law_normalized_context_shape(request);
    let context = normalized_context(request);
    if resolved && context.len() > 0 {
        let edits = context_call_edits(callee_start, callee_end, args_end, request, resolved, expr);
        assert(edits[2].2 == ".replace('"@ + context + "', './'))"@);
    }
}

/// `conn` is a connection that the graph holds under an id that the module
/// graph module of `m` lists as outgoing.
pub open spec fn is_held_outgoing_connection(g: ModuleGraph, m: ModuleIdentifier, conn: ModuleGraphConnection) -> bool {
    exists|c: ConnectionId| {
        &&& g.graph_module_map().contains_key(m)
        &&& #[trigger] g.graph_module_map()[m].outgoing_connections@.contains(c)
        &&& g.connection_map().contains_key(c)
        &&& conn == g.connection_map()[c]
    }
}

/// Every outgoing connection of a module that the graph holds is among the
/// outgoing connections returned for it, whatever the module graph modules
/// at its ends hold; and every connection returned is one of them.
pub proof fn law_outgoing_connections_complete(g: ModuleGraph, m: ModuleIdentifier, r: Seq<ModuleGraphConnection>)
    requires
        g.outgoing_connections_listed(m, r),
    ensures
        g.graph_module_map().contains_key(m) ==> forall|c: ConnectionId|
            g.graph_module_map()[m].outgoing_connections@.contains(c) && g.connection_map().contains_key(c)
                ==> #[trigger] r.contains(g.connection_map()[c]),
        forall|i: int| 0 <= i < r.len() ==> is_held_outgoing_connection(g, m, #[trigger] r[i]),
        !g.graph_module_map().contains_key(m) ==> r.len() == 0,
{
    let order = choose|order: Seq<ConnectionId>| {
        &&& order.no_duplicates()
        &&& order.to_set() == g.live_outgoing_connections(m)
        &&& r == order.map_values(|c: ConnectionId| g.connection_map()[c])
    };
    if g.graph_module_map().contains_key(m) {
        assert forall|c: ConnectionId|
            g.graph_module_map()[m].outgoing_connections@.contains(c) && g.connection_map().contains_key(c)
                implies #[trigger] r.contains(g.connection_map()[c])
        by {
            assert(order.to_set().contains(c));
            let i = choose|i: int| 0 <= i < order.len() && order[i] == c;
            assert(r[i] == g.connection_map()[c]);
        }
    } else {
        assert(order.to_set().len() == 0);
        if order.len() > 0 {
            assert(order.to_set().contains(order[0]));
        }
    }
    assert forall|i: int| 0 <= i < r.len() implies is_held_outgoing_connection(g, m, #[trigger] r[i]) by {
        let c = order[i];
        assert(order.to_set().contains(c));
        assert(g.graph_module_map().contains_key(m));
        assert(g.graph_module_map()[m].outgoing_connections@.contains(c));
        assert(r[i] == g.connection_map()[c]);
    }
}

/// Revoking a module returns, for every connection that its module graph
/// module listed as incoming and not outgoing and that the graph held, the
/// origin module and the dependency of that connection, whatever the module
/// graph modules at its ends hold: no dependency that loses its module is
/// left out of what the caller must resolve again.
pub proof fn law_revoked_module_returns_all_incoming(
    old: ModuleGraph,
    new: ModuleGraph,
    module_identifier: ModuleIdentifier,
    r: Seq<(Option<ModuleIdentifier>, DependencyId)>,
)
    requires
        ModuleGraph::module_revoked(old, new, module_identifier, r),
    ensures
        old.graph_module_map().contains_key(module_identifier) ==> {
            let mgm = old.graph_module_map()[module_identifier];
            forall|c: ConnectionId|
                mgm.incoming_connections@.contains(c) && !mgm.outgoing_connections@.contains(c)
                    && old.connection_map().contains_key(c)
                    ==> #[trigger] r.contains(old.connection_map()[c].origin_and_dependency())
        },
        !old.graph_module_map().contains_key(module_identifier) ==> r.len() == 0,
{
    if old.graph_module_map().contains_key(module_identifier) {
        let mgm = old.graph_module_map()[module_identifier];
        let outgoing = mgm.outgoing_connections@;
        let incoming = mgm.incoming_connections@;
        let order = choose|order: Seq<ConnectionId>| {
            &&& order.no_duplicates()
            &&& order.to_set() == old.live_connections(incoming.difference(outgoing))
            &&& r == order.map_values(|c: ConnectionId| old.connection_map()[c].origin_and_dependency())
        };
        assert forall|c: ConnectionId|
            mgm.incoming_connections@.contains(c) && !mgm.outgoing_connections@.contains(c)
                && old.connection_map().contains_key(c)
                implies #[trigger] r.contains(old.connection_map()[c].origin_and_dependency())
        by {
            assert(order.to_set().contains(c));
            let i = choose|i: int| 0 <= i < order.len() && order[i] == c;
            assert(r[i] == old.connection_map()[c].origin_and_dependency());
        }
    }
}

} // verus!
