use swc_ffi::pipeline::{transpile, transpile_source, transpile_tsx_to_js};
use swc_ffi::File;

#[test]
fn test_transpile() {
    let file = "test.ts".to_string();
    let input = "const a: number = 1;".to_string();
    let output = transpile(&file, &input);
    assert_eq!(output.as_deref(), Some("const a = 1;\n"));
}

#[test]
fn test_transpile_ts() {
    let code = r#"
            interface User {
                name: string;
            }

            const greet = (user: User) => `Hello ${user.name}`;

            const user: User = { name: 'Manne' };

            console.log(greet(user));
        "#;
    let result = "const greet = (user)=>`Hello ${user.name}`;\nconst user = {\n    name: 'Manne'\n};\nconsole.log(greet(user));\n";
    let file = "test.ts".to_string();
    let input = code.to_string();
    let output = transpile(&file, &input);
    assert_eq!(output.as_deref(), Some(result));
}

#[test]
fn test_mark_isolation() {
    // The second input must come out the same whether or not another call
    // ran before it: marks are scoped to one call and never leak.
    let second_name = "b.ts".to_string();
    let second_text = "type T = number; const x: T = 2;".to_string();
    let alone = transpile(&second_name, &second_text);

    let first_name = "a.ts".to_string();
    let first_text = "const x = 1;".to_string();
    let first = transpile(&first_name, &first_text);
    assert_eq!(first.as_deref(), Some("const x = 1;\n"));

    let after = transpile(&second_name, &second_text);
    assert_eq!(alone, after);
    assert_eq!(after.as_deref(), Some("const x = 2;\n"));
}

#[test]
fn test_pipeline_ordering() {
    // The interface declaration is stripped entirely; the arrow function and
    // the template literal survive with only the type annotation removed.
    let file = "ordering.ts".to_string();
    let input = "interface User { name: string }\nconst greet = (u: User) => `Hi ${u.name}`;".to_string();
    let output = transpile(&file, &input).expect("transpilation should succeed");
    assert!(!output.contains("interface"));
    assert!(!output.contains(": User"));
    assert_eq!(output, "const greet = (u)=>`Hi ${u.name}`;\n");
}

#[test]
fn test_transpile_tsx_dialect() {
    // A .tsx name enables the JSX grammar and the lowering pass rewrites the
    // element into the fixed pragma's call expression.
    let file = "app.tsx".to_string();
    let input = "const el = <div>hi</div>;".to_string();
    let output = transpile(&file, &input).expect("tsx transpilation should succeed");
    assert!(output.contains("React.createElement"));
    assert!(!output.contains("<div>"));
}

#[test]
fn test_transpile_invalid_input() {
    let file = "broken.ts".to_string();
    let input = "const = ;".to_string();
    assert_eq!(transpile(&file, &input), None);
}

#[test]
fn test_transpile_tsx_to_js_provenance() {
    let file = File::FileName("test.ts".to_string(), "const a: number = 1;".to_string());
    let output = transpile_tsx_to_js(file).expect("transpilation should succeed");
    assert_eq!(output, "const a = 1;\n");
}

#[test]
fn test_transpile_source_result_shape() {
    let name = "clean.ts".to_string();
    let text = "const a: number = 1;".to_string();
    let result = transpile_source(&name, &text).expect("transpilation should succeed");
    assert_eq!(result.code, "const a = 1;\n");
    assert!(result.source_map.is_none());
    assert!(result.secondary_output.is_none());
    assert!(result.diagnostics.is_empty());
}

#[test]
fn test_transpile_source_fatal_diagnostic() {
    let name = "broken.ts".to_string();
    let text = "const = ;".to_string();
    let diagnostic = match transpile_source(&name, &text) {
        Err(d) => d,
        Ok(_) => panic!("invalid input must not transpile"),
    };
    assert!(diagnostic.is_fatal());
    assert!(!diagnostic.message_text().is_empty());
}

#[test]
fn test_recovered_diagnostics_alongside_result() {
    // Mixing `??` with `||` without parentheses is a recoverable syntax
    // error: a tree still exists, the call succeeds, and the collected
    // diagnostic is returned alongside the result.
    let name = "mixed.ts".to_string();
    let text = "const v = a ?? b || c;".to_string();
    match transpile_source(&name, &text) {
        Ok(result) => {
            assert!(!result.code.is_empty());
            assert!(!result.diagnostics.is_empty());
        }
        Err(d) => panic!("expected a best-effort result, got: {}", d.message_text()),
    }
}
