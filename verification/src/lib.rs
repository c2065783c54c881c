//! Orchestration layer for a multi-pass JavaScript/TypeScript source-to-source
//! compiler. Source text, described by a [`provenance::File`], is driven
//! through an ordered transformation pipeline (parse, resolve bindings, lower
//! JSX, strip type annotations, hygienic rename, structural fix-up, emit) and
//! comes back as code plus diagnostics. The transformation engine itself is an
//! outside collaborator; this crate states and checks the contracts the
//! orchestrator requires of it: dialect selection, stage ordering, the
//! error-reporting convention, and the packaging of results into the
//! caller-owned output aggregate.

pub mod diag;
pub mod engine;
pub mod marshal;
pub mod pipeline;
pub mod provenance;

pub use diag::CompilationResult;
pub use diag::Diagnostic;
pub use diag::Severity;
pub use marshal::OutputAggregate;
pub use provenance::File;
