//! The dependency that a `require.context(...)`-style call in CommonJS code
//! creates, and how code generation rewrites that call.
use vstd::prelude::*;
use crate::ids::{DependencyId, DependencyIdAllocator};
use crate::module_graph::ModuleGraph;

verus! {

/// A span of source text, by byte offsets.
#[derive(Clone, Copy, PartialEq, Eq, Debug, Structural)]
pub struct ErrorSpan {
    pub start: u32,
    pub end: u32,
}

/// How the modules of a context are loaded.
#[derive(Clone, Copy, PartialEq, Eq, Debug, Structural)]
pub enum ContextMode {
    Sync,
    Eager,
    Weak,
    Lazy,
    LazyOnce,
}

/// The name of a context mode.
pub open spec fn context_mode_name(mode: ContextMode) -> Seq<char> {
    match mode {
        ContextMode::Sync => "sync"@,
        ContextMode::Eager => "eager"@,
        ContextMode::Weak => "weak"@,
        ContextMode::Lazy => "lazy"@,
        ContextMode::LazyOnce => "lazy-once"@,
    }
}

impl ContextMode {
    /// The name of the mode.
    pub fn as_str(&self) -> (name: &'static str)
        ensures
            name@ == context_mode_name(*self),
    {
        match self {
            ContextMode::Sync => "sync",
            ContextMode::Eager => "eager",
            ContextMode::Weak => "weak",
            ContextMode::Lazy => "lazy",
            ContextMode::LazyOnce => "lazy-once",
        }
    }
}

/// The kind of code that a dependency comes from.
#[derive(Clone, Copy, PartialEq, Eq, Debug, Structural)]
pub enum DependencyCategory {
    Unknown,
    Esm,
    CommonJS,
    Url,
    CssImport,
    CssCompose,
    Wasm,
    Worker,
}

/// The kind of a dependency.
#[derive(Clone, Copy, PartialEq, Eq, Debug, Structural)]
pub enum DependencyType {
    Unknown,
    Entry,
    EsmImport,
    EsmExport,
    CjsRequire,
    DynamicImport,
    CommonJSRequireContext,
    RequireContext,
    ImportContext,
}

/// What a context dependency asks for: the request (the directory), the
/// mode, whether subdirectories count, and which files (a regular
/// expression, by its source, and patterns of files to take and to leave).
#[derive(Clone, Debug)]
pub struct ContextOptions {
    pub mode: ContextMode,
    pub recursive: bool,
    pub reg_exp: String,
    pub include_pattern: Option<String>,
    pub exclude_pattern: Option<String>,
    pub category: DependencyCategory,
    pub request: String,
}

/// The text of an optional string: the string, or nothing.
pub open spec fn optional_text(s: Option<String>) -> Seq<char> {
    match s {
        Some(s) => s@,
        None => Seq::empty(),
    }
}

/// The text of a boolean.
pub open spec fn bool_text(b: bool) -> Seq<char> {
    if b { "true"@ } else { "false"@ }
}

/// The resource identifier of a context dependency: dependencies with the
/// same context and options share it, and with it the context module that
/// serves them.
pub open spec fn context_resource_identifier(context: Option<Seq<char>>, options: ContextOptions) -> Seq<char> {
    let context = match context {
        Some(c) => c,
        None => Seq::empty(),
    };
    "context"@ + context + "|ctx request"@ + options.request@ + " "@ + bool_text(options.recursive)
        + " "@ + options.reg_exp@ + " "@ + optional_text(options.include_pattern) + " "@
        + optional_text(options.exclude_pattern) + " "@ + context_mode_name(options.mode)
}

/// Appends an optional string: the string, or nothing.
fn append_optional(s: &mut String, o: &Option<String>)
    ensures
        final(s)@ == old(s)@ + optional_text(*o),
{
    match o {
        Some(text) => s.append(text.as_str()),
        None => {
            assert(old(s)@ + Seq::<char>::empty() =~= old(s)@);
        },
    }
}

/// Builds the resource identifier of a context dependency from its context
/// and options.
pub fn create_resource_identifier_for_context_dependency(context: Option<&str>, options: &ContextOptions) -> (id: String)
    ensures
        id@ == context_resource_identifier(
            match context {
                Some(c) => Some(c@),
                None => None,
            },
            *options,
        ),
{
    let mut id = String::from_str("context");
    match context {
        Some(c) => id.append(c),
        None => {
            assert(id@ + Seq::<char>::empty() =~= id@);
        },
    }
    id.append("|ctx request");
    id.append(options.request.as_str());
    id.append(" ");
    id.append(if options.recursive { "true" } else { "false" });
    id.append(" ");
    id.append(options.reg_exp.as_str());
    id.append(" ");
    append_optional(&mut id, &options.include_pattern);
    id.append(" ");
    append_optional(&mut id, &options.exclude_pattern);
    id.append(" ");
    id.append(options.mode.as_str());
    id
}

/// The context of a request, as code generation writes it: empty for the
/// current directory (`.` or `./`), the request itself when it ends with a
/// slash, else the request with a slash added.
pub open spec fn normalized_context(request: Seq<char>) -> Seq<char> {
    if request == seq!['.', '/'] || request == seq!['.'] {
        Seq::empty()
    } else if request.len() > 0 && request.last() == '/' {
        request
    } else {
        request.push('/')
    }
}

/// Normalizes the context of a request; see [`normalized_context`].
pub fn normalize_context(request: &str) -> (context: String)
    ensures
        context@ == normalized_context(request@),
{
    let len = request.unicode_len();
    if len == 2 && request.get_char(0) == '.' && request.get_char(1) == '/' {
        assert(request@ =~= seq!['.', '/']);
        return String::new();
    }
    if len == 1 && request.get_char(0) == '.' {
        assert(request@ =~= seq!['.']);
        return String::new();
    }
    if len > 0 && request.get_char(len - 1) == '/' {
        return String::from_str(request);
    }
    let mut context = String::from_str(request);
    context.append("/");
    proof {
        reveal_strlit("/");
        assert(context@ =~= request@.push('/'));
    }
    context
}

/// An edit of generated source text: the text between `start` and `end`
/// gives way to `content` (an insertion when the two are equal).
#[derive(Clone, Debug)]
pub struct Replacement {
    pub start: u32,
    pub end: u32,
    pub content: String,
}

/// The edits that code generation makes to a module's source, in order.
#[derive(Debug)]
pub struct TemplateReplaceSource {
    replacements: Vec<Replacement>,
}

impl TemplateReplaceSource {
    /// The edits so far, as (start, end, content).
    pub closed spec fn edits(&self) -> Seq<(u32, u32, Seq<char>)> {
        self.replacements@.map_values(|r: Replacement| (r.start, r.end, r.content@))
    }

    /// A source with no edits.
    pub fn new() -> (s: Self)
        ensures
            s.edits().len() == 0,
    {
        TemplateReplaceSource { replacements: Vec::new() }
    }

    /// Replaces the text between `start` and `end` with `content`.
    pub fn replace(&mut self, start: u32, end: u32, content: &str)
        ensures
            final(self).edits() == old(self).edits().push((start, end, content@)),
    {
        self.replacements.push(Replacement { start, end, content: String::from_str(content) });
        assert(self.edits() =~= old(self).edits().push((start, end, content@)));
    }

    /// Inserts `content` at `pos`.
    pub fn insert(&mut self, pos: u32, content: &str)
        ensures
            final(self).edits() == old(self).edits().push((pos, pos, content@)),
    {
        self.replace(pos, pos, content);
    }

    /// The edits so far, in order.
    pub fn replacements(&self) -> (r: &Vec<Replacement>)
        ensures
            r@.map_values(|r: Replacement| (r.start, r.end, r.content@)) == self.edits(),
    {
        &self.replacements
    }
}

/// The dependency of a `require.context(...)`-style call in CommonJS code:
/// where the callee and the arguments of the call end, the dependency's id,
/// its options and its source span.
#[derive(Clone, Debug)]
pub struct CommonJsRequireContextDependency {
    callee_start: u32,
    callee_end: u32,
    args_end: u32,
    id: DependencyId,
    options: ContextOptions,
    span: Option<ErrorSpan>,
    resource_identifier: String,
}

/// The edits that code generation makes for a context call: when the
/// dependency resolved to no module, the whole call gives way to the
/// expression; else the callee does, and, where the request has a non-empty
/// context, the expression is opened with `(` and closed after the arguments
/// with a `.replace` of the context by `./`.
pub open spec fn context_call_edits(
    callee_start: u32,
    callee_end: u32,
    args_end: u32,
    request: Seq<char>,
    resolved: bool,
    expr: Seq<char>,
) -> Seq<(u32, u32, Seq<char>)> {
    let context = normalized_context(request);
    if !resolved {
        seq![(callee_start, args_end, expr)]
    } else if context.len() == 0 {
        seq![(callee_start, callee_end, expr)]
    } else {
        seq![
            (callee_start, callee_end, expr),
            (callee_end, callee_end, "("@),
            (args_end, args_end, ".replace('"@ + context + "', './'))"@),
        ]
    }
}

impl CommonJsRequireContextDependency {
    pub closed spec fn spec_callee_start(&self) -> u32 {
        self.callee_start
    }

    pub closed spec fn spec_callee_end(&self) -> u32 {
        self.callee_end
    }

    pub closed spec fn spec_args_end(&self) -> u32 {
        self.args_end
    }

    pub closed spec fn spec_id(&self) -> DependencyId {
        self.id
    }

    pub closed spec fn spec_options(&self) -> ContextOptions {
        self.options
    }

    pub closed spec fn spec_span(&self) -> Option<ErrorSpan> {
        self.span
    }

    pub closed spec fn spec_resource_identifier(&self) -> Seq<char> {
        self.resource_identifier@
    }

    /// `d` is the dependency that [`CommonJsRequireContextDependency::new`]
    /// makes from these arguments with an id allocator that had handed out
    /// `old_issued` ids and then `new_issued`: it takes the allocator's next
    /// id, and its resource identifier is built from its options, with no
    /// context.
    pub open spec fn created(
        d: Self,
        callee_start: u32,
        callee_end: u32,
        args_end: u32,
        options: ContextOptions,
        span: Option<ErrorSpan>,
        old_issued: usize,
        new_issued: usize,
    ) -> bool {
        &&& d.spec_callee_start() == callee_start
        &&& d.spec_callee_end() == callee_end
        &&& d.spec_args_end() == args_end
        &&& d.spec_options() == options
        &&& d.spec_span() == span
        &&& d.spec_id() == DependencyId(old_issued)
        &&& new_issued == old_issued + 1
        &&& d.spec_resource_identifier() == context_resource_identifier(None, options)
    }

    /// A dependency for the call whose callee spans `callee_start` to
    /// `callee_end` and whose arguments end at `args_end`, with a fresh id
    /// from `ids`.
    pub fn new(
        callee_start: u32,
        callee_end: u32,
        args_end: u32,
        options: ContextOptions,
        span: Option<ErrorSpan>,
        ids: &mut DependencyIdAllocator,
    ) -> (d: Self)
        requires
            old(ids).spec_issued() < usize::MAX,
        ensures
            Self::created(d, callee_start, callee_end, args_end, options, span, old(ids).spec_issued(), final(ids).spec_issued()),
    {
        let resource_identifier = create_resource_identifier_for_context_dependency(None, &options);
        let id = ids.allocate();
        CommonJsRequireContextDependency {
            callee_start,
            callee_end,
            args_end,
            options,
            span,
            id,
            resource_identifier,
        }
    }

    /// The id of the dependency.
    pub fn id(&self) -> (id: &DependencyId)
        ensures
            *id == self.spec_id(),
    {
        &self.id
    }

    /// The category of the dependency: always CommonJS.
    pub fn category(&self) -> (c: DependencyCategory)
        ensures
            c == DependencyCategory::CommonJS,
    {
        DependencyCategory::CommonJS
    }

    /// The type of the dependency: always a CommonJS require context.
    pub fn dependency_type(&self) -> (t: DependencyType)
        ensures
            t == DependencyType::CommonJSRequireContext,
    {
        DependencyType::CommonJSRequireContext
    }

    /// The source span of the dependency.
    pub fn span(&self) -> (span: Option<ErrorSpan>)
        ensures
            span == self.spec_span(),
    {
        self.span
    }

    /// The name of the dependency's type, for debugging.
    pub fn dependency_debug_name(&self) -> (name: &'static str)
        ensures
            name@ == "CommonJsRequireContextDependency"@,
    {
        "CommonJsRequireContextDependency"
    }

    /// The request of the dependency.
    pub fn request(&self) -> (request: &str)
        ensures
            request@ == self.spec_options().request@,
    {
        self.options.request.as_str()
    }

    /// The options of the dependency.
    pub fn options(&self) -> (options: &ContextOptions)
        ensures
            *options == self.spec_options(),
    {
        &self.options
    }

    /// The context of the dependency: it has none.
    pub fn get_context(&self) -> (context: Option<&str>)
        ensures
            context is None,
    {
        None
    }

    /// The resource identifier of the dependency.
    pub fn resource_identifier(&self) -> (id: &str)
        ensures
            id@ == self.spec_resource_identifier(),
    {
        self.resource_identifier.as_str()
    }

    /// Changes the request of the dependency; nothing else changes, the
    /// resource identifier included.
    pub fn set_request(&mut self, request: String)
        ensures
            final(self).spec_options() == (ContextOptions { request, ..old(self).spec_options() }),
            final(self).spec_callee_start() == old(self).spec_callee_start(),
            final(self).spec_callee_end() == old(self).spec_callee_end(),
            final(self).spec_args_end() == old(self).spec_args_end(),
            final(self).spec_id() == old(self).spec_id(),
            final(self).spec_span() == old(self).spec_span(),
            final(self).spec_resource_identifier() == old(self).spec_resource_identifier(),
    {
        self.options.request = request;
    }

    /// Rewrites the call in `source`.  `expr` is the expression that code
    /// generation built to require the context module of this dependency;
    /// whether the dependency resolved is read from `module_graph`.  The
    /// edits made are [`context_call_edits`].
    pub fn apply(&self, source: &mut TemplateReplaceSource, module_graph: &ModuleGraph, expr: &str)
        ensures
            final(source).edits() == old(source).edits() + context_call_edits(
                self.spec_callee_start(),
                self.spec_callee_end(),
                self.spec_args_end(),
                self.spec_options().request@,
                module_graph.spec_module_graph_module_by_dependency_id(self.spec_id()) is Some,
                expr@,
            ),
    {
        if module_graph.module_graph_module_by_dependency_id(&self.id).is_none() {
            source.replace(self.callee_start, self.args_end, expr);
            assert(source.edits() =~= old(source).edits() + seq![(self.callee_start, self.args_end, expr@)]);
            return;
        }
        source.replace(self.callee_start, self.callee_end, expr);
        let context = normalize_context(self.options.request.as_str());
        if context.unicode_len() != 0 {
            source.insert(self.callee_end, "(");
            let mut tail = String::from_str(".replace('");
            tail.append(context.as_str());
            tail.append("', './'))");
            source.insert(self.args_end, tail.as_str());
            assert(source.edits() =~= old(source).edits() + seq![
                (self.callee_start, self.callee_end, expr@),
                (self.callee_end, self.callee_end, "("@),
                (self.args_end, self.args_end, ".replace('"@ + context@ + "', './'))"@),
            ]);
        } else {
            assert(source.edits() =~= old(source).edits() + seq![(self.callee_start, self.callee_end, expr@)]);
        }
    }

    /// The id of the dependency.
    pub fn dependency_id(&self) -> (id: Option<DependencyId>)
        ensures
            id == Some(self.spec_id()),
    {
        Some(self.id)
    }
}

} // verus!
