use swc_ffi::pipeline::{minify, minify_js};
use swc_ffi::File;

#[test]
fn test_minify_js() {
    let code = r#"
            function hello() {
                console.log('Hello, world!');
            }
        "#;
    let result = "function hello(){console.log(\"Hello, world!\")}".to_string();
    let output = minify(File::FileName("input.js".to_string(), code.into()));
    assert_eq!(output, Some(result));
}

#[test]
fn test_minify_determinism() {
    // Minifying the same input twice, each call with a fresh empty mangle
    // cache, gives byte-identical output.
    let code = "function add(first, second) { return first + second; }\nconsole.log(add(1, 2));".to_string();
    let first = minify(File::FileName("input.js".to_string(), code.clone()));
    let second = minify(File::FileName("input.js".to_string(), code.clone()));
    assert!(first.is_some());
    assert_eq!(first, second);
}

#[test]
fn test_minify_js_entry() {
    let code = "function hello() { console.log('Hello, world!'); }".to_string();
    let mut error = String::new();
    let output = minify_js(&code, &mut error).expect("minification should succeed");
    assert_eq!(output, "function hello(){console.log(\"Hello, world!\")}");
    assert_eq!(error, "");
}

#[test]
fn test_minify_js_error_buffer() {
    let code = "const = ;".to_string();
    let mut error = String::new();
    let output = minify_js(&code, &mut error);
    assert!(output.is_none());
    assert_eq!(error, "failed to minify code");
}
