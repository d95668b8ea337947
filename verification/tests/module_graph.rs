use rspack_graph::context_dependency::ErrorSpan;
use rspack_graph::ids::{ConnectionId, DependencyId, DependencyIdAllocator, ModuleIdentifier};
use rspack_graph::module::{
    Module, ModuleDependency, ModuleGraphError, ModuleGraphModule, ModuleIssuer, ModuleType,
};
use rspack_graph::module_graph::ModuleGraph;

/// The module of a test node: its identifier stands for the interned name
/// `Node__<name>`.
fn node(name: u64) -> Module {
    Module { identifier: ModuleIdentifier(name), resource_path: None }
}

/// A dependency from `from` on the module named `to`.
fn edge(from: Option<ModuleIdentifier>, to: ModuleIdentifier) -> ModuleDependency {
    ModuleDependency::new(from, format!("Node__{}", to.0))
}

fn add_module_to_graph(mg: &mut ModuleGraph, m: Module) {
    let mgm = ModuleGraphModule::new(m.identifier(), ModuleType::Js, true);
    mg.add_module_graph_module(mgm);
    mg.add_module(m);
}

fn link_modules_with_dependency(
    mg: &mut ModuleGraph,
    from: Option<&ModuleIdentifier>,
    to: &ModuleIdentifier,
    dep: ModuleDependency,
    ids: &mut DependencyIdAllocator,
) -> DependencyId {
    let dependency_id = mg.add_dependency(dep, ids);
    if let Some(p_id) = from {
        if let Some(mgm) = mg.module_graph_module_by_identifier_mut(p_id) {
            mgm.dependencies.push(dependency_id);
        }
    }
    mg.set_resolved_module(from.copied(), dependency_id, *to)
        .expect("failed to set resolved module");

    assert_eq!(mg.module_identifier_by_dependency_id(&dependency_id).copied(), Some(*to));
    dependency_id
}

fn mgm<'m>(mg: &'m ModuleGraph, m_id: &ModuleIdentifier) -> &'m ModuleGraphModule {
    mg.module_graph_module_by_identifier(m_id).expect("not found")
}

#[test]
fn test_module_graph() {
    let mut mg = ModuleGraph::default();
    let mut ids = DependencyIdAllocator::new();
    let a = node(1);
    let b = node(2);
    let a_id = a.identifier();
    let b_id = b.identifier();
    let a_to_b = edge(Some(a_id), b_id);
    add_module_to_graph(&mut mg, a);
    add_module_to_graph(&mut mg, b);
    let a_to_b_id = link_modules_with_dependency(&mut mg, Some(&a_id), &b_id, a_to_b, &mut ids);

    let mgm_a = mgm(&mg, &a_id);
    let mgm_b = mgm(&mg, &b_id);
    let conn_a = mgm_a.outgoing_connections.iter().collect::<Vec<_>>();
    let conn_b = mgm_b.incoming_connections.iter().collect::<Vec<_>>();
    assert_eq!(conn_a[0], conn_b[0]);

    let c = node(3);
    let c_id = c.identifier();
    let b_to_c = edge(Some(b_id), c_id);
    add_module_to_graph(&mut mg, c);
    let b_to_c_id = link_modules_with_dependency(&mut mg, Some(&b_id), &c_id, b_to_c, &mut ids);

    let mgm_b = mgm(&mg, &b_id);
    let mgm_c = mgm(&mg, &c_id);
    let conn_b = mgm_b.outgoing_connections.iter().collect::<Vec<_>>();
    let conn_c = mgm_c.incoming_connections.iter().collect::<Vec<_>>();
    assert_eq!(conn_c[0], conn_b[0]);

    mg.remove_connection_by_dependency(&a_to_b_id);

    let mgm_a = mgm(&mg, &a_id);
    let mgm_b = mgm(&mg, &b_id);
    assert!(mgm_a.outgoing_connections.is_empty());
    assert!(mgm_b.incoming_connections.is_empty());

    mg.remove_connection_by_dependency(&b_to_c_id);

    let mgm_b = mgm(&mg, &b_id);
    let mgm_c = mgm(&mg, &c_id);
    assert!(mgm_b.outgoing_connections.is_empty());
    assert!(mgm_c.incoming_connections.is_empty());
}

#[test]
fn add_dependency_hands_out_fresh_ids() {
    let mut mg = ModuleGraph::new();
    let mut ids = DependencyIdAllocator::new();
    let d1 = mg.add_dependency(edge(None, ModuleIdentifier(1)), &mut ids);
    let d2 = mg.add_dependency(edge(None, ModuleIdentifier(2)), &mut ids);
    assert_eq!(d1, DependencyId(0));
    assert_eq!(d2, DependencyId(1));
    let stored = mg.dependency_by_id(&d2).expect("stored");
    assert_eq!(stored.id(), Some(d2));
    assert_eq!(stored.request, "Node__2");
    assert_eq!(stored.user_request, "Node__2");
    assert!(mg.dependency_by_id(&DependencyId(7)).is_none());
}

#[test]
fn add_dependency_keeps_a_given_id() {
    let mut mg = ModuleGraph::new();
    let mut ids = DependencyIdAllocator::new();
    let mut dep = edge(None, ModuleIdentifier(1));
    dep.set_id(Some(DependencyId(42)));
    assert_eq!(mg.add_dependency(dep, &mut ids), DependencyId(42));
    assert_eq!(ids.issued(), 0);
    assert!(mg.dependency_by_id(&DependencyId(42)).is_none());
    // the counter was not used
    assert_eq!(mg.add_dependency(edge(None, ModuleIdentifier(1)), &mut ids), DependencyId(0));
}

#[test]
fn resolving_to_an_unknown_module_fails() {
    let mut mg = ModuleGraph::new();
    let mut ids = DependencyIdAllocator::new();
    add_module_to_graph(&mut mg, node(1));
    let dep = mg.add_dependency(edge(Some(ModuleIdentifier(1)), ModuleIdentifier(9)), &mut ids);
    let r = mg.set_resolved_module(Some(ModuleIdentifier(1)), dep, ModuleIdentifier(9));
    assert_eq!(r, Err(ModuleGraphError::ModuleNotFound(ModuleIdentifier(9))));
    let e = r.unwrap_err();
    assert_eq!(e.module_identifier(), ModuleIdentifier(9));
    assert_eq!(
        e.message("Node__9"),
        "Failed to set resolved module: Module linked to module identifier Node__9 cannot be found"
    );
    // the dependency and its connection were recorded all the same
    assert_eq!(mg.module_identifier_by_dependency_id(&dep).copied(), Some(ModuleIdentifier(9)));
    let conn = mg.connection_by_dependency(&dep).copied().expect("connection");
    assert_eq!(conn.dependency_id, dep);
    assert_eq!(conn.module_identifier, ModuleIdentifier(9));
    // but the original module was not linked
    assert!(mgm(&mg, &ModuleIdentifier(1)).outgoing_connections.is_empty());
    assert!(mg.module_graph_module_by_dependency_id(&dep).is_none());
}

#[test]
fn resolving_twice_reuses_the_connection() {
    let mut mg = ModuleGraph::new();
    let mut ids = DependencyIdAllocator::new();
    add_module_to_graph(&mut mg, node(1));
    add_module_to_graph(&mut mg, node(2));
    let dep = mg.add_dependency(edge(Some(ModuleIdentifier(1)), ModuleIdentifier(2)), &mut ids);
    mg.set_resolved_module(Some(ModuleIdentifier(1)), dep, ModuleIdentifier(2)).unwrap();
    let first = mg.connection_by_dependency(&dep).copied().unwrap();
    mg.set_resolved_module(Some(ModuleIdentifier(1)), dep, ModuleIdentifier(2)).unwrap();
    let second = mg.connection_by_dependency(&dep).copied().unwrap();
    assert_eq!(first.id, second.id);
    assert_eq!(mgm(&mg, &ModuleIdentifier(2)).incoming_connections.len(), 1);
    assert_eq!(mgm(&mg, &ModuleIdentifier(1)).outgoing_connections.len(), 1);
    // a different module makes a new connection
    add_module_to_graph(&mut mg, node(3));
    mg.set_resolved_module(Some(ModuleIdentifier(1)), dep, ModuleIdentifier(3)).unwrap();
    let third = mg.connection_by_dependency(&dep).copied().unwrap();
    assert_ne!(third.id, first.id);
    assert_eq!(third.id, ConnectionId(2));
    assert_eq!(mg.dependency_by_connection_id(&third.id).unwrap().id(), Some(dep));
    assert_eq!(mg.connection_by_connection_id(&first.id).unwrap().module_identifier, ModuleIdentifier(2));
}

#[test]
fn removal_undoes_resolution() {
    let mut mg = ModuleGraph::new();
    let mut ids = DependencyIdAllocator::new();
    add_module_to_graph(&mut mg, node(1));
    add_module_to_graph(&mut mg, node(2));
    let dep = mg.add_dependency(edge(Some(ModuleIdentifier(1)), ModuleIdentifier(2)), &mut ids);
    mg.set_resolved_module(Some(ModuleIdentifier(1)), dep, ModuleIdentifier(2)).unwrap();
    let conn = mg.connection_by_dependency(&dep).copied().unwrap();
    let removed = mg.remove_connection_by_dependency(&dep).expect("removed");
    assert_eq!(removed.id, conn.id);
    assert_eq!(removed.original_module_identifier, Some(ModuleIdentifier(1)));
    assert!(mg.connection_by_dependency(&dep).is_none());
    assert!(mg.connection_by_connection_id(&conn.id).is_none());
    assert!(mg.module_identifier_by_dependency_id(&dep).is_none());
    assert!(mg.dependency_by_id(&dep).is_none());
    assert!(mg.remove_connection_by_dependency(&dep).is_none());
}

#[test]
fn revoke_module_drops_module_and_its_connections() {
    let mut mg = ModuleGraph::new();
    let mut ids = DependencyIdAllocator::new();
    for n in 1..=3 {
        add_module_to_graph(&mut mg, node(n));
    }
    let a_to_b = mg.add_dependency(edge(Some(ModuleIdentifier(1)), ModuleIdentifier(2)), &mut ids);
    mg.set_resolved_module(Some(ModuleIdentifier(1)), a_to_b, ModuleIdentifier(2)).unwrap();
    let b_to_c = mg.add_dependency(edge(Some(ModuleIdentifier(2)), ModuleIdentifier(3)), &mut ids);
    mg.set_resolved_module(Some(ModuleIdentifier(2)), b_to_c, ModuleIdentifier(3)).unwrap();
    let entry = mg.add_dependency(edge(None, ModuleIdentifier(2)), &mut ids);
    mg.set_resolved_module(None, entry, ModuleIdentifier(2)).unwrap();

    let mut revoked = mg.revoke_module(&ModuleIdentifier(2));
    revoked.sort_by_key(|(_, d)| d.0);
    assert_eq!(revoked, vec![(Some(ModuleIdentifier(1)), a_to_b), (None, entry)]);
    assert!(mg.module_by_identifier(&ModuleIdentifier(2)).is_none());
    assert!(mg.module_graph_module_by_identifier(&ModuleIdentifier(2)).is_none());
    assert!(mg.connection_by_dependency(&a_to_b).is_none());
    assert!(mg.connection_by_dependency(&b_to_c).is_none());
    assert!(mgm(&mg, &ModuleIdentifier(1)).outgoing_connections.is_empty());
    assert!(mgm(&mg, &ModuleIdentifier(3)).incoming_connections.is_empty());
    // the dependencies themselves stay
    assert!(mg.dependency_by_id(&a_to_b).is_some());
    assert!(mg.revoke_module(&ModuleIdentifier(2)).is_empty());
}

#[test]
fn revoke_module_with_a_self_loop() {
    let mut mg = ModuleGraph::new();
    let mut ids = DependencyIdAllocator::new();
    add_module_to_graph(&mut mg, node(1));
    let dep = mg.add_dependency(edge(Some(ModuleIdentifier(1)), ModuleIdentifier(1)), &mut ids);
    mg.set_resolved_module(Some(ModuleIdentifier(1)), dep, ModuleIdentifier(1)).unwrap();
    // the connection is outgoing too, so it is revoked with the outgoing ones
    assert!(mg.revoke_module(&ModuleIdentifier(1)).is_empty());
    assert!(mg.connection_by_dependency(&dep).is_none());
}

#[test]
fn outgoing_connections_of_a_module() {
    let mut mg = ModuleGraph::new();
    let mut ids = DependencyIdAllocator::new();
    for n in 1..=3 {
        add_module_to_graph(&mut mg, node(n));
    }
    let d1 = mg.add_dependency(edge(Some(ModuleIdentifier(1)), ModuleIdentifier(2)), &mut ids);
    mg.set_resolved_module(Some(ModuleIdentifier(1)), d1, ModuleIdentifier(2)).unwrap();
    let d2 = mg.add_dependency(edge(Some(ModuleIdentifier(1)), ModuleIdentifier(3)), &mut ids);
    mg.set_resolved_module(Some(ModuleIdentifier(1)), d2, ModuleIdentifier(3)).unwrap();
    let mut targets: Vec<u64> = mg
        .get_outgoing_connections(&node(1))
        .iter()
        .map(|c| c.module_identifier.0)
        .collect();
    targets.sort();
    assert_eq!(targets, vec![2, 3]);
    assert!(mg.get_outgoing_connections(&node(3)).is_empty());
    assert!(mg.get_outgoing_connections(&node(8)).is_empty());
}

#[test]
fn module_hash_reads_back() {
    let mut mg = ModuleGraph::new();
    let mut ids = DependencyIdAllocator::new();
    add_module_to_graph(&mut mg, node(1));
    assert_eq!(mg.get_module_hash(&ModuleIdentifier(1)), None);
    mg.set_module_hash(&ModuleIdentifier(1), 0xdead_beef);
    assert_eq!(mg.get_module_hash(&ModuleIdentifier(1)), Some(0xdead_beef));
    mg.set_module_hash(&ModuleIdentifier(5), 7);
    assert_eq!(mg.get_module_hash(&ModuleIdentifier(5)), None);
}

#[test]
fn first_module_wins() {
    let mut mg = ModuleGraph::new();
    let mut ids = DependencyIdAllocator::new();
    mg.add_module(Module { identifier: ModuleIdentifier(1), resource_path: Some("/src/a.js".to_string()) });
    mg.add_module(Module { identifier: ModuleIdentifier(1), resource_path: Some("/src/b.js".to_string()) });
    assert_eq!(mg.modules().len(), 1);
    assert_eq!(mg.normal_module_source_path_by_identifier(&ModuleIdentifier(1)), Some("/src/a.js"));
    mg.add_module(node(2));
    assert_eq!(mg.normal_module_source_path_by_identifier(&ModuleIdentifier(2)), None);
    assert_eq!(mg.normal_module_source_path_by_identifier(&ModuleIdentifier(3)), None);
    if let Some(m) = mg.module_by_identifier_mut(&ModuleIdentifier(2)) {
        m.resource_path = Some("/src/c.js".to_string());
    }
    assert_eq!(mg.normal_module_source_path_by_identifier(&ModuleIdentifier(2)), Some("/src/c.js"));
    mg.modules_mut().remove(&ModuleIdentifier(2));
    assert!(mg.module_by_identifier(&ModuleIdentifier(2)).is_none());
}

#[test]
fn first_module_graph_module_wins() {
    let mut mg = ModuleGraph::new();
    let mut ids = DependencyIdAllocator::new();
    mg.add_module_graph_module(ModuleGraphModule::new(ModuleIdentifier(1), ModuleType::Js, true));
    mg.add_module_graph_module(ModuleGraphModule::new(ModuleIdentifier(1), ModuleType::Css, false));
    assert_eq!(mg.module_graph_modules().len(), 1);
    assert_eq!(mgm(&mg, &ModuleIdentifier(1)).module_type, ModuleType::Js);
}

#[test]
fn issuer_and_order_index() {
    let mut mg = ModuleGraph::new();
    let mut ids = DependencyIdAllocator::new();
    add_module_to_graph(&mut mg, node(1));
    add_module_to_graph(&mut mg, node(2));
    assert!(mg.get_issuer(&node(2)).is_none());
    if let Some(m) = mg.module_graph_module_by_identifier_mut(&ModuleIdentifier(2)) {
        m.set_issuer(ModuleIssuer::Issuer(ModuleIdentifier(1)));
        m.pre_order_index = Some(4);
    }
    assert_eq!(mg.get_issuer(&node(2)).map(|m| m.identifier()), Some(ModuleIdentifier(1)));
    assert_eq!(mg.get_pre_order_index(&ModuleIdentifier(2)), Some(4));
    assert_eq!(mg.get_pre_order_index(&ModuleIdentifier(1)), None);
    if let Some(m) = mg.module_graph_module_by_identifier_mut(&ModuleIdentifier(2)) {
        m.set_issuer(ModuleIssuer::Issuer(ModuleIdentifier(9)));
    }
    assert!(mg.get_issuer(&node(2)).is_none());
}

#[test]
fn dependencies_of_a_module() {
    let mut mg = ModuleGraph::new();
    let mut ids = DependencyIdAllocator::new();
    add_module_to_graph(&mut mg, node(1));
    add_module_to_graph(&mut mg, node(2));
    let dep = link_modules_with_dependency(
        &mut mg,
        Some(&ModuleIdentifier(1)),
        &ModuleIdentifier(2),
        edge(Some(ModuleIdentifier(1)), ModuleIdentifier(2)),
        &mut ids,
    );
    assert_eq!(mg.dependencies_by_module(&node(1)), Some(&[dep][..]));
    assert_eq!(mg.dependencies_by_module_identifier(&ModuleIdentifier(2)), Some(&[][..]));
    assert_eq!(mg.dependencies_by_module_identifier(&ModuleIdentifier(3)), None);
    let conn = *mg.connection_by_dependency(&dep).unwrap();
    assert_eq!(mg.dependency_by_connection(&conn).unwrap().id(), Some(dep));
    assert_eq!(
        mg.module_graph_module_by_dependency_id(&dep).map(|m| m.module_identifier),
        Some(ModuleIdentifier(2))
    );
    let _span = ErrorSpan { start: 0, end: 1 };
}

#[test]
fn dependency_ids_are_unique_across_graphs() {
    let mut ids = DependencyIdAllocator::new();
    let mut g1 = ModuleGraph::new();
    let mut g2 = ModuleGraph::new();
    let a = g1.add_dependency(edge(None, ModuleIdentifier(1)), &mut ids);
    let b = g2.add_dependency(edge(None, ModuleIdentifier(1)), &mut ids);
    assert_ne!(a, b);
    assert!(g1.dependency_by_id(&b).is_none());
    assert_eq!(g2.dependency_by_id(&b).unwrap().id(), Some(b));
}

#[test]
fn error_message_names_the_module() {
    let e = ModuleGraphError::ModuleNotFound(ModuleIdentifier(1_204_000_007));
    assert_eq!(
        e.message("javascript/auto|/src/index.js"),
        "Failed to set resolved module: Module linked to module identifier javascript/auto|/src/index.js cannot be found"
    );
}
