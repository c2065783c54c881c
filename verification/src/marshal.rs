//! The output marshaler: packages a compilation result into the
//! caller-owned aggregate, and converts a tagged result into the boundary's
//! value-or-error convention. Absent optional fields become explicit empty
//! strings, never absent values, so the paired deallocation can be applied
//! uniformly; the collected diagnostics are serialized by joining the
//! messages with a newline separator.

use vstd::prelude::*;
use vstd::string::StringExecFns;

use crate::diag::normalized_message;
use crate::diag::CompilationResult;
use crate::diag::Diagnostic;
use crate::engine::parse_outcome;
use crate::pipeline::transpile_source;
use crate::pipeline::transpiled_code_model;
use crate::provenance::is_tsx_name;

verus! {

/// The given message texts joined with a single newline between neighbours:
/// nothing for no messages, and no trailing separator.
pub open spec fn joined_with_newlines(msgs: Seq<Seq<char>>) -> Seq<char>
    decreases msgs.len(),
{
    if msgs.len() == 0 {
        Seq::empty()
    } else if msgs.len() == 1 {
        msgs[0]
    } else {
        joined_with_newlines(msgs.drop_last()) + seq!['\n'] + msgs.last()
    }
}

/// Serializes a list of diagnostic messages into one buffer, newline
/// separated.
pub fn join_with_newlines(msgs: &Vec<String>) -> (r: String)
    ensures
        r@ == joined_with_newlines(msgs.deep_view()),
{
    let ghost views = msgs.deep_view();
    let mut out = String::new();
    let mut i: usize = 0;
    while i < msgs.len()
        invariant
            i <= msgs.len(),
            views == msgs.deep_view(),
            out@ == joined_with_newlines(views.take(i as int)),
        decreases msgs.len() - i,
    {
        if i > 0 {
            out.append("\n");
        }
        out.append(msgs[i].as_str());
        proof {
            reveal_strlit("\n");
            assert(views[i as int] == msgs@[i as int]@);
            assert(views.take(i + 1 as int).drop_last() =~= views.take(i as int));
            assert(views.take(i + 1 as int).last() == views[i as int]);
            assert("\n"@ =~= seq!['\n']);
        }
        i = i + 1;
    }
    proof {
        assert(views.take(msgs.len() as int) =~= views);
    }
    out
}

/// The caller-visible packaged form of a compilation result: four
/// independently owned buffers, each possibly empty but never absent.
/// Ownership of the whole aggregate transfers to the caller at return, and
/// the embedding layer releases all four fields together, exactly once.
pub struct OutputAggregate {
    pub output: String,
    pub code: String,
    pub map: String,
    pub diagnostics: String,
}

/// Packages a compilation result for the caller. An absent source map or
/// secondary output becomes an explicit empty buffer — never an absent
/// field — so the paired deallocation needs no branching on presence; the
/// diagnostics are joined with newlines.
pub fn to_aggregate(result: CompilationResult) -> (r: OutputAggregate)
    ensures
        r.code@ == result.code@,
        r.map@ == match result.source_map {
            Some(m) => m@,
            None => Seq::<char>::empty(),
        },
        r.output@ == match result.secondary_output {
            Some(s) => s@,
            None => Seq::<char>::empty(),
        },
        r.diagnostics@ == joined_with_newlines(result.diagnostics.deep_view()),
{
    let CompilationResult { code, source_map, diagnostics, secondary_output } = result;
    let map = match source_map {
        Some(m) => m,
        None => String::new(),
    };
    let output = match secondary_output {
        Some(s) => s,
        None => String::new(),
    };
    let diagnostics = join_with_newlines(&diagnostics);
    OutputAggregate { output, code, map, diagnostics }
}

/// Converts a tagged result into the boundary's value-or-error convention:
/// on success the value comes back and the error buffer is left untouched;
/// on failure nothing comes back and the buffer holds the diagnostic's
/// message, never silently empty.
pub fn write_outcome(result: Result<String, Diagnostic>, error_out: &mut String) -> (r: Option<
    String,
>)
    ensures
        result is Ok ==> r is Some && r->0@ == result->Ok_0@ && final(error_out)@ == old(
            error_out,
        )@,
        result is Err ==> r is None && final(error_out)@ == normalized_message(
            result->Err_0.message@,
        ),
        result is Err ==> final(error_out)@.len() > 0,
{
    match result {
        Ok(value) => Some(value),
        Err(diagnostic) => {
            let normalized = Diagnostic::recoverable(diagnostic.message);
            *error_out = normalized.message;
            None
        },
    }
}

/// Transpiles source text and always returns an aggregate: on success the
/// emitted code with the recovered syntax errors joined into the
/// diagnostics buffer, on failure an empty code buffer with a non-empty
/// diagnostics buffer. The map and secondary-output buffers are empty
/// strings here — this mode produces neither — never absent fields.
pub fn transpile_to_aggregate(name: &String, text: &String) -> (r: OutputAggregate)
    ensures
        transpiled_code_model(name@, text@) is Some ==> r.code@ == transpiled_code_model(
            name@,
            text@,
        )->0 && r.diagnostics@ == joined_with_newlines(
            parse_outcome(is_tsx_name(name@), text@)->Ok_0,
        ),
        transpiled_code_model(name@, text@) is None ==> r.code@.len() == 0 && r.diagnostics@.len()
            > 0,
        r.map@.len() == 0,
        r.output@.len() == 0,
{
    match transpile_source(name, text) {
        Ok(result) => to_aggregate(result),
        Err(diagnostic) => OutputAggregate {
            output: String::new(),
            code: String::new(),
            map: String::new(),
            diagnostics: diagnostic.message,
        },
    }
}

} // verus!
