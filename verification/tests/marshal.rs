use swc_ffi::marshal::{join_with_newlines, to_aggregate, transpile_to_aggregate, write_outcome};
use swc_ffi::provenance::name_is_tsx;
use swc_ffi::{CompilationResult, Diagnostic};

#[test]
fn test_join_with_newlines() {
    assert_eq!(join_with_newlines(&vec![]), "");
    assert_eq!(join_with_newlines(&vec!["only".to_string()]), "only");
    let msgs = vec!["first".to_string(), "second".to_string(), "third".to_string()];
    assert_eq!(join_with_newlines(&msgs), "first\nsecond\nthird");
}

#[test]
fn test_aggregate_empty_map() {
    // No source map is produced by the transpile mode, so the aggregate's
    // map field is an empty string, never an absent field.
    let name = "t.ts".to_string();
    let text = "const a: number = 1;".to_string();
    let aggregate = transpile_to_aggregate(&name, &text);
    assert_eq!(aggregate.code, "const a = 1;\n");
    assert_eq!(aggregate.map, "");
    assert_eq!(aggregate.output, "");
    assert_eq!(aggregate.diagnostics, "");
}

#[test]
fn test_aggregate_on_failure() {
    let name = "t.ts".to_string();
    let text = "const = ;".to_string();
    let aggregate = transpile_to_aggregate(&name, &text);
    assert_eq!(aggregate.code, "");
    assert!(!aggregate.diagnostics.is_empty());
    assert_eq!(aggregate.map, "");
    assert_eq!(aggregate.output, "");
}

#[test]
fn test_to_aggregate_fields() {
    let result = CompilationResult {
        code: "var a = 1;\n".to_string(),
        source_map: Some("{\"mappings\":\"AAAA\"}".to_string()),
        diagnostics: vec!["late semicolon".to_string(), "odd spacing".to_string()],
        secondary_output: None,
    };
    let aggregate = to_aggregate(result);
    assert_eq!(aggregate.code, "var a = 1;\n");
    assert_eq!(aggregate.map, "{\"mappings\":\"AAAA\"}");
    assert_eq!(aggregate.output, "");
    assert_eq!(aggregate.diagnostics, "late semicolon\nodd spacing");
}

#[test]
fn test_write_outcome_success() {
    let mut error = "stale".to_string();
    let out = write_outcome(Ok("var a = 1;\n".to_string()), &mut error);
    assert_eq!(out.as_deref(), Some("var a = 1;\n"));
    assert_eq!(error, "stale");
}

#[test]
fn test_write_outcome_failure() {
    let mut error = String::new();
    let diagnostic = Diagnostic::recoverable("emission failed".to_string());
    let out = write_outcome(Err(diagnostic), &mut error);
    assert!(out.is_none());
    assert_eq!(error, "emission failed");
}

#[test]
fn test_write_outcome_never_silent() {
    let mut error = String::new();
    let diagnostic = Diagnostic {
        severity: swc_ffi::Severity::Recoverable,
        message: String::new(),
    };
    let out = write_outcome(Err(diagnostic), &mut error);
    assert!(out.is_none());
    assert_eq!(error, "transformation failed without a message");
}

#[test]
fn test_diagnostic_constructors() {
    let fatal = Diagnostic::fatal(String::new());
    assert!(fatal.is_fatal());
    assert_eq!(fatal.message_text(), "transformation failed without a message");
    let recoverable = Diagnostic::recoverable("stage failed".to_string());
    assert!(!recoverable.is_fatal());
    assert_eq!(recoverable.message_text(), "stage failed");
}

#[test]
fn test_name_is_tsx() {
    assert!(name_is_tsx("app.tsx"));
    assert!(name_is_tsx(".tsx"));
    assert!(name_is_tsx("déjà.tsx"));
    assert!(!name_is_tsx("app.ts"));
    assert!(!name_is_tsx("tsx"));
    assert!(!name_is_tsx("app.TSX"));
    assert!(!name_is_tsx(""));
}
