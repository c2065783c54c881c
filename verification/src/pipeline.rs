//! The orchestrator: sequences the engine's capabilities in the mandated
//! order for a given provenance and mode, and returns a result or a
//! diagnosed failure. Three modes exist: `transpile` drives the explicit
//! mark-aware stage pipeline, `compile` runs the engine's bundled
//! single-file process capability, and `minify` runs its minification
//! capability. Every call establishes its own context scope, so no marks or
//! registry state are shared between calls.

use vstd::prelude::*;
use vstd::pervasive::unreached;

use crate::diag::normalized_message;
use crate::diag::CompilationResult;
use crate::diag::Diagnostic;
use crate::engine::compiled_code_of;
use crate::engine::emitted_code;
use crate::engine::engine_compile;
use crate::engine::engine_minify;
use crate::engine::fix_structure;
use crate::engine::hygienic_rename;
use crate::engine::lex_and_parse;
use crate::engine::lower_jsx;
use crate::engine::minified_code_of;
use crate::engine::new_context;
use crate::engine::parse_outcome;
use crate::engine::resolve_bindings;
use crate::engine::strip_types;
use crate::engine::emit_program_text;
use crate::provenance::is_tsx_name;
use crate::provenance::name_is_tsx;
use crate::provenance::File;

verus! {

/// The code the transpile mode returns for a given source name and text:
/// the staged pipeline's emitted text when both parsing and emission go
/// through, `None` otherwise. The name enters only through the dialect it
/// selects.
pub open spec fn transpiled_code_model(name: Seq<char>, text: Seq<char>) -> Option<Seq<char>> {
    if parse_outcome(is_tsx_name(name), text) is Ok {
        emitted_code(is_tsx_name(name), text)
    } else {
        None
    }
}

/// Whether an optional owned string agrees with an optional modelled text:
/// present exactly together, and equal when present.
pub open spec fn code_matches(r: Option<String>, m: Option<Seq<char>>) -> bool {
    &&& (r is Some) == (m is Some)
    &&& r is Some ==> r->0@ == m->0
}

/// Transpiles TypeScript or TSX source text to JavaScript through the full
/// staged pipeline: lex and parse (collecting recovered syntax errors),
/// resolve bindings with this call's fresh marks, lower JSX, strip type
/// annotations, rename hygienically, fix the structure, and emit with an
/// ES2015 target. The dialect comes from the name's suffix. On an
/// unrecoverable parse error the call fails fatally with the parser's
/// message; on an emission failure it fails recoverably.
pub fn transpile_source(name: &String, text: &String) -> (r: Result<CompilationResult, Diagnostic>)
    ensures
        (r is Ok) <==> (parse_outcome(is_tsx_name(name@), text@) is Ok && emitted_code(
            is_tsx_name(name@),
            text@,
        ) is Some),
        r is Ok ==> r->Ok_0.code@ == emitted_code(is_tsx_name(name@), text@)->Some_0,
        r is Ok ==> r->Ok_0.diagnostics.deep_view() == parse_outcome(is_tsx_name(name@), text@)->Ok_0,
        r is Ok ==> r->Ok_0.source_map is None && r->Ok_0.secondary_output is None,
        r is Err ==> r->Err_0.wf(),
        parse_outcome(is_tsx_name(name@), text@) is Err ==> r is Err && r->Err_0.severity is Fatal
            && r->Err_0.message@ == normalized_message(
            parse_outcome(is_tsx_name(name@), text@)->Err_0,
        ),
        parse_outcome(is_tsx_name(name@), text@) is Ok && emitted_code(is_tsx_name(name@), text@)
            is None ==> r is Err && r->Err_0.severity is Recoverable,
{
    let tsx = name_is_tsx(name.as_str());
    let scope = new_context();
    match lex_and_parse(scope, name.clone(), text.clone(), tsx) {
        Err(message) => Err(Diagnostic::fatal(message)),
        Ok((mut program, recovered)) => {
            resolve_bindings(&mut program);
            lower_jsx(&mut program);
            strip_types(&mut program);
            hygienic_rename(&mut program);
            fix_structure(&mut program);
            match emit_program_text(&program) {
                Ok(code) => Ok(
                    CompilationResult {
                        code,
                        source_map: None,
                        diagnostics: recovered,
                        secondary_output: None,
                    },
                ),
                Err(message) => Err(Diagnostic::recoverable(message)),
            }
        },
    }
}

/// Transpiles an in-memory provenance to JavaScript, returning the emitted
/// code alone. Loading the text behind a `FilePath` is the embedding
/// layer's concern, so only the `FileName` form is accepted here.
pub fn transpile_tsx_to_js(file: File) -> (r: Result<String, Diagnostic>)
    requires
        file is FileName,
    ensures
        (r is Ok) == (transpiled_code_model(file.spec_name(), file.spec_text()) is Some),
        r is Ok ==> r->Ok_0@ == transpiled_code_model(file.spec_name(), file.spec_text())->Some_0,
        r is Err ==> r->Err_0.wf(),
{
    match file {
        File::FileName(name, text) => {
            match transpile_source(&name, &text) {
                Ok(result) => Ok(result.code),
                Err(diagnostic) => Err(diagnostic),
            }
        },
        File::FilePath(_) => unreached(),
    }
}

/// Transpiles source text under a given name, with the sentinel error
/// convention of the outermost boundary: the emitted code, or `None` when
/// the pipeline failed.
pub fn transpile(file: &String, input: &String) -> (r: Option<String>)
    ensures
        code_matches(r, transpiled_code_model(file@, input@)),
{
    match transpile_source(file, input) {
        Ok(result) => Some(result.code),
        Err(_) => None,
    }
}

/// Compiles an in-memory provenance with the engine's bundled single-file
/// process capability (parse as plain ECMAScript, default transform, emit).
/// The result depends on the source text alone.
pub fn compile(file: File) -> (r: Option<String>)
    requires
        file is FileName,
    ensures
        code_matches(r, compiled_code_of(file.spec_text())),
{
    match file {
        File::FileName(name, text) => engine_compile(&name, &text),
        File::FilePath(_) => unreached(),
    }
}

/// Compiles source text handed in as a string, writing the failure message
/// into the caller-supplied error buffer. On success the buffer is left
/// untouched; on failure it is overwritten with a non-empty message.
pub fn compile_js(code: &String, error: &mut String) -> (r: Option<String>)
    ensures
        code_matches(r, compiled_code_of(code@)),
        r is Some ==> final(error)@ == old(error)@,
        r is None ==> final(error)@ == "failed to compile file"@,
        r is None ==> final(error)@.len() > 0,
{
    let name: String = "input.js".to_owned();
    match engine_compile(&name, code) {
        Some(output) => Some(output),
        None => {
            proof {
                reveal_strlit("failed to compile file");
            }
            *error = "failed to compile file".to_owned();
            None
        },
    }
}

/// Minifies an in-memory provenance with compression and name mangling
/// enabled and a fresh, empty mangle cache, so repeated identifiers map to
/// the same minified name across the whole input. The result depends on the
/// source text alone.
pub fn minify(file: File) -> (r: Option<String>)
    requires
        file is FileName,
    ensures
        code_matches(r, minified_code_of(file.spec_text())),
{
    match file {
        File::FileName(name, text) => engine_minify(&name, &text),
        File::FilePath(_) => unreached(),
    }
}

/// Minifies source text handed in as a string, writing the failure message
/// into the caller-supplied error buffer. On success the buffer is left
/// untouched; on failure it is overwritten with a non-empty message.
pub fn minify_js(code: &String, error: &mut String) -> (r: Option<String>)
    ensures
        code_matches(r, minified_code_of(code@)),
        r is Some ==> final(error)@ == old(error)@,
        r is None ==> final(error)@ == "failed to minify code"@,
        r is None ==> final(error)@.len() > 0,
{
    let name: String = "input.js".to_owned();
    match engine_minify(&name, code) {
        Some(output) => Some(output),
        None => {
            proof {
                reveal_strlit("failed to minify code");
            }
            *error = "failed to minify code".to_owned();
            None
        },
    }
}

/// Mark isolation: a transpile call's result is a function of that call's
/// own name and text, never of what ran before it. Any two results that
/// meet the transpile contract for the same inputs — a call run alone and
/// the same call run after arbitrarily many others — are the same.
pub proof fn lemma_calls_do_not_interfere(
    name: Seq<char>,
    text: Seq<char>,
    alone: Option<Seq<char>>,
    after_others: Option<Seq<char>>,
)
    requires
        alone == transpiled_code_model(name, text),
        after_others == transpiled_code_model(name, text),
    ensures
        alone == after_others,
{
}

/// Provenance equivalence: the compile mode's result does not depend on
/// where the text came from. A result obtained for inline text and one
/// obtained for the same text read out of a file meet the same model, so
/// they carry identical code.
pub proof fn lemma_provenance_equivalence(
    text: Seq<char>,
    from_inline: Option<Seq<char>>,
    from_path: Option<Seq<char>>,
)
    requires
        from_inline == compiled_code_of(text),
        from_path == compiled_code_of(text),
    ensures
        from_inline == from_path,
{
}

/// The transpile mode reads the provenance name only to decide the dialect:
/// two names that select the same dialect give the same code for the same
/// text.
pub proof fn lemma_dialect_decides(name_a: Seq<char>, name_b: Seq<char>, text: Seq<char>)
    requires
        is_tsx_name(name_a) == is_tsx_name(name_b),
    ensures
        transpiled_code_model(name_a, text) == transpiled_code_model(name_b, text),
{
}

/// Minify determinism: minifying the same input twice, each time with a
/// fresh empty mangle cache, produces byte-identical output both times.
pub proof fn lemma_minify_deterministic(
    text: Seq<char>,
    first: Option<Seq<char>>,
    second: Option<Seq<char>>,
)
    requires
        first == minified_code_of(text),
        second == minified_code_of(text),
    ensures
        first == second,
{
}

} // verus!

