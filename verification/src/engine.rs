//! The transformation engine's capability set, stated as contracts.
//!
//! The engine itself is the swc compiler library. Each capability the
//! orchestrator needs — lex and parse, resolve bindings, lower JSX, strip
//! types, hygienic rename, structural fix-up, emit, and the bundled
//! process and minify entry points — stands here behind a trusted item
//! whose contract records what the orchestrator relies on: in which order
//! the stages may run (the `Phase` the program has reached), and that the
//! engine's results are functions of the dialect and the source text alone
//! (each call works inside its own freshly created context, so no state
//! leaks between calls).

use std::sync::Arc;

use swc::config::IsModule;
use swc::config::JsMinifyOptions;
use swc::try_with_handler;
use swc::BoolOrDataConfig;
use swc::JsMinifyExtras;
use swc_common::comments::SingleThreadedComments;
use swc_common::FileName;
use swc_common::Globals;
use swc_common::Mark;
use swc_common::SourceMap;
use swc_common::GLOBALS;
use swc_ecma_ast::EsVersion;
use swc_ecma_ast::Pass;
use swc_ecma_ast::Program;
use swc_ecma_codegen::text_writer::JsWriter;
use swc_ecma_codegen::Config;
use swc_ecma_codegen::Emitter;
use swc_ecma_minifier::option::SimpleMangleCache;
use swc_ecma_parser::lexer::Lexer;
use swc_ecma_parser::Parser;
use swc_ecma_parser::StringInput;
use swc_ecma_parser::Syntax;
use swc_ecma_parser::TsSyntax;
use swc_ecma_transforms_base::fixer::fixer;
use swc_ecma_transforms_base::hygiene::hygiene;
use swc_ecma_transforms_base::resolver;
use swc_ecma_transforms_react::jsx;
use swc_ecma_transforms_react::Options as JsxOptions;
use swc_ecma_transforms_typescript::strip;
use swc_ecma_visit::VisitMutWith;

use vstd::prelude::*;

verus! {

#[verifier::external_type_specification]
#[verifier::external_body]
pub struct ExSourceMap(SourceMap);

#[verifier::external_type_specification]
#[verifier::external_body]
pub struct ExGlobals(Globals);

#[verifier::external_type_specification]
#[verifier::external_body]
pub struct ExMark(Mark);

#[verifier::external_type_specification]
#[verifier::external_body]
pub struct ExSingleThreadedComments(SingleThreadedComments);

#[verifier::external_type_specification]
#[verifier::external_body]
pub struct ExProgram(Program);

/// How far along the mandated stage order a program has come. The order is a
/// correctness invariant: resolution must precede lowering and stripping
/// (they consume the marks it assigns), the hygienic rename must follow them
/// (it cleans up the collisions they introduce), and the structural fix-up
/// must come last before emission.
pub enum Phase {
    Parsed,
    Resolved,
    JsxLowered,
    TypesErased,
    Renamed,
    FixedUp,
}

/// The per-call compilation context: the shared source registry, the scoped
/// globals the engine's passes run under, and the two freshly allocated
/// marks that distinguish top-level bindings from unresolved ones. A new
/// scope is created for every orchestration call and never reused: sharing
/// marks across calls would corrupt identifier hygiene.
pub struct ContextScope {
    cm: Arc<SourceMap>,
    globals: Globals,
    unresolved_mark: Mark,
    top_level_mark: Mark,
    comments: SingleThreadedComments,
}

/// A program travelling through the pipeline, together with the scope it was
/// parsed in and the comments collected from its source. It records which
/// stage it has reached and which dialect and source text it came from; the
/// stage contracts below maintain these fields.
pub struct TsProgram {
    scope: ContextScope,
    ast: Program,
    phase: Phase,
    tsx: bool,
    text: String,
}

impl TsProgram {
    /// The pipeline stage this program has reached.
    pub closed spec fn phase(self) -> Phase {
        self.phase
    }

    /// Whether the program was parsed with the TSX grammar.
    pub closed spec fn tsx(self) -> bool {
        self.tsx
    }

    /// The source text the program was parsed from.
    pub closed spec fn text(self) -> Seq<char> {
        self.text@
    }
}

/// What parsing a source text under a dialect yields: the non-fatal syntax
/// errors recovered along the way (a tree still exists), or the message of
/// the unrecoverable error (no tree could be produced). Parsing is a
/// function of the dialect and the text alone; the registered source name
/// labels spans but does not enter the parser's decisions or its messages.
pub uninterp spec fn parse_outcome(tsx: bool, text: Seq<char>) -> Result<Seq<Seq<char>>, Seq<char>>;

/// The text the full staged pipeline emits for a source that parsed, or
/// `None` when emission fails. The pipeline's passes and the emitter are
/// deterministic, and every call runs in a fresh scope with fresh marks, so
/// the emitted code is a function of the dialect and the source text alone.
pub uninterp spec fn emitted_code(tsx: bool, text: Seq<char>) -> Option<Seq<char>>;

/// The code the engine's bundled single-file process capability produces,
/// or `None` when it fails. With default options the engine parses every
/// input as plain ECMAScript, reads no configuration file, and produces no
/// source map, so the result is a function of the source text alone — the
/// registered name does not enter it.
pub uninterp spec fn compiled_code_of(text: Seq<char>) -> Option<Seq<char>>;

/// The code the engine's minify capability produces with compression and
/// mangling enabled and a fresh empty mangle cache, or `None` when it
/// fails. Minification is deterministic: the same text gives byte-identical
/// output on every call.
pub uninterp spec fn minified_code_of(text: Seq<char>) -> Option<Seq<char>>;

/// Establishes the per-call context. Relies on `swc_common::Globals` and
/// `swc_common::Mark::new`: each mark drawn under a fresh `Globals` is fresh,
/// so the two marks are unique to this scope and never reused by another.
#[verifier::external_body]
pub(crate) fn new_context() -> ContextScope {
    let cm: Arc<SourceMap> = Default::default();
    let globals = Globals::default();
    let (unresolved_mark, top_level_mark) = GLOBALS.set(&globals, || (Mark::new(), Mark::new()));
    let comments = SingleThreadedComments::default();
    ContextScope { cm, globals, unresolved_mark, top_level_mark, comments }
}

/// The engine's lex-and-parse capability. Relies on `swc_ecma_parser`'s
/// `Lexer` and `Parser`: `parse_program` returns a tree or the unrecoverable
/// error, and `take_errors` hands out the syntax errors it recovered from;
/// both depend on the dialect flags and the input text alone, and the
/// messages come from the error kinds, which carry no positions or names.
#[verifier::external_body]
pub(crate) fn lex_and_parse(scope: ContextScope, name: String, text: String, tsx: bool) -> (r:
    Result<(TsProgram, Vec<String>), String>)
    ensures
        (r is Ok) == (parse_outcome(tsx, text@) is Ok),
        r is Ok ==> r->Ok_0.0.phase() == Phase::Parsed,
        r is Ok ==> r->Ok_0.0.tsx() == tsx,
        r is Ok ==> r->Ok_0.0.text() == text@,
        r is Ok ==> r->Ok_0.1.deep_view() == parse_outcome(tsx, text@)->Ok_0,
        r is Err ==> r->Err_0@ == parse_outcome(tsx, text@)->Err_0,
{
    let fm = scope.cm.new_source_file(FileName::Custom(name).into(), text.clone());
    let syntax = Syntax::Typescript(TsSyntax { tsx, decorators: true, ..Default::default() });
    let mut parser = Parser::new_from(Lexer::new(syntax, Default::default(), StringInput::from(&*fm), Some(&scope.comments)));
    match parser.parse_program() {
        Err(e) => Err(e.kind().msg().to_string()),
        Ok(ast) => {
            let recovered: Vec<String> = parser.take_errors().into_iter().map(|e| e.kind().msg().to_string()).collect();
            Ok((TsProgram { scope, ast, phase: Phase::Parsed, tsx, text }, recovered))
        }
    }
}

/// The engine's binding-resolution capability. Relies on
/// `swc_ecma_transforms_base::resolver`, run under the scope's globals: it
/// attaches the scope's two marks to the tree's identifiers and is a
/// deterministic tree pass, so dialect and text still determine the program.
#[verifier::external_body]
pub(crate) fn resolve_bindings(p: &mut TsProgram)
    requires
        old(p).phase() == Phase::Parsed,
    ensures
        final(p).phase() == Phase::Resolved,
        final(p).tsx() == old(p).tsx(),
        final(p).text() == old(p).text(),
{
    GLOBALS.set(&p.scope.globals, || {
        p.ast.visit_mut_with(&mut resolver(p.scope.unresolved_mark, p.scope.top_level_mark, true));
    });
    p.phase = Phase::Resolved;
}

/// The engine's JSX-lowering capability. Relies on
/// `swc_ecma_transforms_react::jsx` with the fixed pragma convention
/// (`React.createElement` / `React.Fragment`): a deterministic tree pass
/// that turns JSX syntax into plain call expressions.
#[verifier::external_body]
pub(crate) fn lower_jsx(p: &mut TsProgram)
    requires
        old(p).phase() == Phase::Resolved,
    ensures
        final(p).phase() == Phase::JsxLowered,
        final(p).tsx() == old(p).tsx(),
        final(p).text() == old(p).text(),
{
    GLOBALS.set(&p.scope.globals, || {
        let opts = JsxOptions {
            pragma: Some("React.createElement".into()),
            pragma_frag: Some("React.Fragment".into()),
            ..Default::default()
        };
        let mut pass = jsx(p.scope.cm.clone(), Some(&p.scope.comments), opts, p.scope.top_level_mark, p.scope.unresolved_mark);
        p.ast.visit_mut_with(&mut pass);
    });
    p.phase = Phase::JsxLowered;
}

/// The engine's type-stripping capability. Relies on
/// `swc_ecma_transforms_typescript::strip` with the scope's marks: a
/// deterministic tree pass that erases type annotations, interfaces and
/// other type-only syntax.
#[verifier::external_body]
pub(crate) fn strip_types(p: &mut TsProgram)
    requires
        old(p).phase() == Phase::JsxLowered,
    ensures
        final(p).phase() == Phase::TypesErased,
        final(p).tsx() == old(p).tsx(),
        final(p).text() == old(p).text(),
{
    GLOBALS.set(&p.scope.globals, || {
        strip(p.scope.unresolved_mark, p.scope.top_level_mark).process(&mut p.ast);
    });
    p.phase = Phase::TypesErased;
}

/// The engine's hygienic-rename capability. Relies on
/// `swc_ecma_transforms_base::hygiene`: a deterministic tree pass that
/// renames identifiers so that the lowering and stripping passes cannot
/// have introduced collisions with user-written names.
#[verifier::external_body]
pub(crate) fn hygienic_rename(p: &mut TsProgram)
    requires
        old(p).phase() == Phase::TypesErased,
    ensures
        final(p).phase() == Phase::Renamed,
        final(p).tsx() == old(p).tsx(),
        final(p).text() == old(p).text(),
{
    GLOBALS.set(&p.scope.globals, || {
        p.ast.visit_mut_with(&mut hygiene());
    });
    p.phase = Phase::Renamed;
}

/// The engine's structural fix-up capability. Relies on
/// `swc_ecma_transforms_base::fixer::fixer`: a deterministic tree pass that
/// restores parentheses and similar syntax earlier passes may have broken.
#[verifier::external_body]
pub(crate) fn fix_structure(p: &mut TsProgram)
    requires
        old(p).phase() == Phase::Renamed,
    ensures
        final(p).phase() == Phase::FixedUp,
        final(p).tsx() == old(p).tsx(),
        final(p).text() == old(p).text(),
{
    GLOBALS.set(&p.scope.globals, || {
        p.ast.visit_mut_with(&mut fixer(Some(&p.scope.comments)));
    });
    p.phase = Phase::FixedUp;
}

/// The engine's emit capability, only applicable once the full stage order
/// has run. Relies on `swc_ecma_codegen::Emitter` over a `JsWriter` with a
/// fixed ES2015 target: a deterministic code generator, so the emitted text
/// is the function of dialect and source recorded in [`emitted_code`].
#[verifier::external_body]
pub(crate) fn emit_program_text(p: &TsProgram) -> (r: Result<String, String>)
    requires
        p.phase() == Phase::FixedUp,
    ensures
        (r is Ok) == (emitted_code(p.tsx(), p.text()) is Some),
        r is Ok ==> r->Ok_0@ == emitted_code(p.tsx(), p.text())->Some_0,
{
    GLOBALS.set(&p.scope.globals, || {
        let mut buf = vec![];
        let mut emitter = Emitter {
            cfg: Config::default().with_target(EsVersion::Es2015),
            cm: p.scope.cm.clone(),
            comments: Some(&p.scope.comments),
            wr: Box::new(JsWriter::new(p.scope.cm.clone(), "\n", &mut buf, None)),
        };
        if let Err(e) = emitter.emit_program(&p.ast) {
            return Err(e.to_string());
        }
        String::from_utf8(buf).map_err(|e| e.to_string())
    })
}

/// The engine's bundled single-file process capability. Relies on
/// `swc::Compiler::process_js_file` with default options under a fresh
/// context: it parses the registered source as plain ECMAScript, applies
/// the default transform, and emits; the code it returns is the function of
/// the text recorded in [`compiled_code_of`].
#[verifier::external_body]
pub(crate) fn engine_compile(name: &String, text: &String) -> (r: Option<String>)
    ensures
        (r is Some) == (compiled_code_of(text@) is Some),
        r is Some ==> r->Some_0@ == compiled_code_of(text@)->Some_0,
{
    let cm: Arc<SourceMap> = Default::default();
    let compiler = swc::Compiler::new(cm.clone());
    let output = GLOBALS.set(&Default::default(), || {
        try_with_handler(cm.clone(), Default::default(), |handler| {
            let fm = cm.new_source_file(Arc::new(FileName::Custom(name.clone())), text.clone());
            compiler.process_js_file(fm, handler, &Default::default())
        })
    });
    output.map(|o| o.code).ok()
}

/// The engine's minify capability. Relies on `swc::Compiler::minify` with
/// compression and mangling enabled, module-or-script detection from the
/// text's own syntax, and a fresh `SimpleMangleCache`, under a fresh
/// context: the code it returns is the function of the text recorded in
/// [`minified_code_of`].
#[verifier::external_body]
pub(crate) fn engine_minify(name: &String, text: &String) -> (r: Option<String>)
    ensures
        (r is Some) == (minified_code_of(text@) is Some),
        r is Some ==> r->Some_0@ == minified_code_of(text@)->Some_0,
{
    let cm: Arc<SourceMap> = Default::default();
    let compiler = swc::Compiler::new(cm.clone());
    let opts = JsMinifyOptions { compress: BoolOrDataConfig::from_bool(true), mangle: BoolOrDataConfig::from_bool(true), module: IsModule::Unknown, ..Default::default() };
    let extras = JsMinifyExtras::default().with_mangle_name_cache(Some(Arc::new(SimpleMangleCache::default())));
    let output = GLOBALS.set(&Default::default(), || {
        try_with_handler(cm.clone(), Default::default(), |handler| {
            let fm = cm.new_source_file(Arc::new(FileName::Custom(name.clone())), text.clone());
            compiler.minify(fm, handler, &opts, extras)
        })
    });
    output.map(|o| o.code).ok()
}

} // verus!
