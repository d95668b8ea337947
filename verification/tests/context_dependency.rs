use rspack_graph::context_dependency::{
    create_resource_identifier_for_context_dependency, normalize_context,
    CommonJsRequireContextDependency, ContextMode, ContextOptions, DependencyCategory,
    DependencyType, ErrorSpan, TemplateReplaceSource,
};
use rspack_graph::ids::{DependencyId, DependencyIdAllocator, ModuleIdentifier};
use rspack_graph::module::{Module, ModuleGraphModule, ModuleType};
use rspack_graph::module_graph::ModuleGraph;

fn options(request: &str) -> ContextOptions {
    ContextOptions {
        mode: ContextMode::Sync,
        recursive: true,
        reg_exp: "^\\.\\/.*$".to_string(),
        include_pattern: None,
        exclude_pattern: Some("node_modules".to_string()),
        category: DependencyCategory::CommonJS,
        request: request.to_string(),
    }
}

fn edits(source: &TemplateReplaceSource) -> Vec<(u32, u32, String)> {
    source
        .replacements()
        .iter()
        .map(|r| (r.start, r.end, r.content.clone()))
        .collect()
}

#[test]
fn normalize_context_cases() {
    assert_eq!(normalize_context("./"), "");
    assert_eq!(normalize_context("."), "");
    assert_eq!(normalize_context("./src/"), "./src/");
    assert_eq!(normalize_context("./src"), "./src/");
    assert_eq!(normalize_context(""), "/");
    assert_eq!(normalize_context(".."), "../");
}

#[test]
fn resource_identifier_of_options() {
    let id = create_resource_identifier_for_context_dependency(None, &options("./src"));
    assert_eq!(id, "context|ctx request./src true ^\\.\\/.*$  node_modules sync");
    let mut lazy = options("./lib");
    lazy.mode = ContextMode::LazyOnce;
    lazy.recursive = false;
    lazy.include_pattern = Some("\\.js$".to_string());
    let id = create_resource_identifier_for_context_dependency(Some("/root"), &lazy);
    assert_eq!(id, "context/root|ctx request./lib false ^\\.\\/.*$ \\.js$ node_modules lazy-once");
}

#[test]
fn new_dependency_and_its_accessors() {
    let span = Some(ErrorSpan { start: 3, end: 30 });
    let mut ids = DependencyIdAllocator::new();
    let first = CommonJsRequireContextDependency::new(0, 1, 2, options("./src"), None, &mut ids);
    let mut dep = CommonJsRequireContextDependency::new(3, 17, 30, options("./src"), span, &mut ids);
    assert_eq!(*first.id(), DependencyId(0));
    assert_eq!(*dep.id(), DependencyId(1));
    assert_eq!(dep.dependency_id(), Some(DependencyId(1)));
    assert_eq!(dep.category(), DependencyCategory::CommonJS);
    assert_eq!(dep.dependency_type(), DependencyType::CommonJSRequireContext);
    assert_eq!(dep.span(), span);
    assert_eq!(dep.dependency_debug_name(), "CommonJsRequireContextDependency");
    assert_eq!(dep.request(), "./src");
    assert_eq!(dep.options().mode, ContextMode::Sync);
    assert_eq!(dep.get_context(), None);
    let rid = dep.resource_identifier().to_string();
    assert_eq!(rid, "context|ctx request./src true ^\\.\\/.*$  node_modules sync");
    dep.set_request("./lib".to_string());
    assert_eq!(dep.request(), "./lib");
    assert_eq!(dep.resource_identifier(), rid);
}

#[test]
fn apply_without_resolved_module_replaces_the_call() {
    let mut ids = DependencyIdAllocator::new();
    let dep = CommonJsRequireContextDependency::new(3, 17, 30, options("./src"), None, &mut ids);
    let graph = ModuleGraph::new();
    let mut source = TemplateReplaceSource::new();
    dep.apply(&mut source, &graph, "__webpack_require__(\"ctx\")");
    assert_eq!(edits(&source), vec![(3, 30, "__webpack_require__(\"ctx\")".to_string())]);
}

/// A graph in which dependency `id` resolved to a context module.
fn resolved_graph(id: DependencyId) -> ModuleGraph {
    let mut graph = ModuleGraph::new();
    let ctx = ModuleIdentifier(10);
    graph.add_module(Module { identifier: ctx, resource_path: None });
    graph.add_module_graph_module(ModuleGraphModule::new(ctx, ModuleType::Js, false));
    graph.set_resolved_module(None, id, ctx).unwrap();
    graph
}

#[test]
fn apply_with_context_wraps_the_callee() {
    let mut ids = DependencyIdAllocator::new();
    let dep = CommonJsRequireContextDependency::new(3, 17, 30, options("./src"), None, &mut ids);
    let graph = resolved_graph(*dep.id());
    let mut source = TemplateReplaceSource::new();
    dep.apply(&mut source, &graph, "r(1)");
    assert_eq!(
        edits(&source),
        vec![
            (3, 17, "r(1)".to_string()),
            (17, 17, "(".to_string()),
            (30, 30, ".replace('./src/', './'))".to_string()),
        ]
    );
}

#[test]
fn apply_with_empty_context_replaces_the_callee() {
    let mut ids = DependencyIdAllocator::new();
    let dep = CommonJsRequireContextDependency::new(3, 17, 30, options("./"), None, &mut ids);
    let graph = resolved_graph(*dep.id());
    let mut source = TemplateReplaceSource::new();
    source.insert(0, "/* head */");
    dep.apply(&mut source, &graph, "r(1)");
    assert_eq!(
        edits(&source),
        vec![(0, 0, "/* head */".to_string()), (3, 17, "r(1)".to_string())]
    );
}

#[test]
fn context_modes_have_names() {
    assert_eq!(ContextMode::Sync.as_str(), "sync");
    assert_eq!(ContextMode::Eager.as_str(), "eager");
    assert_eq!(ContextMode::Weak.as_str(), "weak");
    assert_eq!(ContextMode::Lazy.as_str(), "lazy");
    assert_eq!(ContextMode::LazyOnce.as_str(), "lazy-once");
}
