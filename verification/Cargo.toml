[package]
name = "swc_ffi"
version = "0.1.0"
edition = "2021"
publish = false

[dependencies]
anyhow = "*"
swc = "*"
swc_common = "*"
swc_ecma_ast = "*"
swc_ecma_codegen = "*"
swc_ecma_minifier = "*"
swc_ecma_parser = "*"
swc_ecma_transforms_base = "*"
swc_ecma_transforms_react = "*"
swc_ecma_transforms_typescript = "*"
swc_ecma_visit = "*"
