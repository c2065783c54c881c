use swc_ffi::pipeline::{compile, compile_js};
use swc_ffi::File;

#[test]
fn test_compile_js_success() {
    let code = "var a = 1;".to_string();
    let mut error = String::new();
    let output = compile_js(&code, &mut error).expect("compilation should succeed");
    assert!(output.contains("var a = 1"));
    assert_ne!(output, code);
    assert_eq!(error, "");
}

#[test]
fn test_compile_error_buffer_untouched_on_success() {
    let code = "var a = 1;".to_string();
    let mut error = "previous message".to_string();
    assert!(compile_js(&code, &mut error).is_some());
    assert_eq!(error, "previous message");
}

#[test]
fn test_provenance_equivalence() {
    // The same text produces identical code whether it arrives as an inline
    // string or under any other provenance name: the compile mode reads the
    // text alone.
    let text = "const answer = 40 + 2;".to_string();
    let inline = compile(File::FileName("inline.js".to_string(), text.clone()));
    let named = compile(File::FileName("copy_read_from_disk.js".to_string(), text.clone()));
    let mut error = String::new();
    let boundary = compile_js(&text, &mut error);
    assert!(inline.is_some());
    assert_eq!(inline, named);
    assert_eq!(inline, boundary);
}

#[test]
fn test_diagnostics_non_silence() {
    // Syntactically invalid input fails with a populated error buffer,
    // never silently.
    let code = "const = ;".to_string();
    let mut error = String::new();
    let output = compile_js(&code, &mut error);
    assert!(output.is_none());
    assert!(!error.is_empty());
    assert_eq!(error, "failed to compile file");
}
