use vstd::prelude::*;

verus! {

/// How severe a diagnostic is. A fatal one means no syntax tree could be
/// produced (or the input could not be decoded at all); a recoverable one
/// means a later pipeline stage failed after a valid tree existed.
#[derive(Debug)]
pub enum Severity {
    Fatal,
    Recoverable,
}

/// The text a diagnostic falls back to when a stage reports a failure with an
/// empty message. The boundary must never surface a failure silently, so
/// every constructed diagnostic carries a non-empty message.
pub open spec fn fallback_message() -> Seq<char> {
    "transformation failed without a message"@
}

/// A failure's message with the silent case ruled out: the message itself if
/// it says anything, the fixed fallback text otherwise.
pub open spec fn normalized_message(m: Seq<char>) -> Seq<char> {
    if m.len() == 0 {
        fallback_message()
    } else {
        m
    }
}

/// A human-readable error or warning produced by a pipeline stage. Its
/// message is never empty: a silent failure would leave the caller with a
/// sentinel return and no explanation.
#[derive(Debug)]
pub struct Diagnostic {
    pub severity: Severity,
    pub message: String,
}

impl Diagnostic {
    /// A diagnostic is well formed when it has something to say.
    pub open spec fn wf(self) -> bool {
        self.message@.len() > 0
    }

    /// A fatal diagnostic: the call can produce no result at all.
    pub fn fatal(message: String) -> (r: Diagnostic)
        ensures
            r.wf(),
            r.severity is Fatal,
            r.message@ == normalized_message(message@),
    {
        proof {
            reveal_strlit("transformation failed without a message");
        }
        if message.as_str().is_empty() {
            Diagnostic {
                severity: Severity::Fatal,
                message: "transformation failed without a message".to_owned(),
            }
        } else {
            Diagnostic { severity: Severity::Fatal, message }
        }
    }

    /// A recoverable diagnostic: a stage failed after a valid tree existed;
    /// the call fails but the process carries on.
    pub fn recoverable(message: String) -> (r: Diagnostic)
        ensures
            r.wf(),
            r.severity is Recoverable,
            r.message@ == normalized_message(message@),
    {
        proof {
            reveal_strlit("transformation failed without a message");
        }
        if message.as_str().is_empty() {
            Diagnostic {
                severity: Severity::Recoverable,
                message: "transformation failed without a message".to_owned(),
            }
        } else {
            Diagnostic { severity: Severity::Recoverable, message }
        }
    }

    /// Whether this diagnostic aborts the call without any best-effort result.
    pub fn is_fatal(&self) -> (r: bool)
        ensures
            r == (self.severity is Fatal),
    {
        match self.severity {
            Severity::Fatal => true,
            Severity::Recoverable => false,
        }
    }

    /// The diagnostic's message, as an owned string.
    pub fn message_text(&self) -> (r: String)
        ensures
            r@ == self.message@,
    {
        self.message.clone()
    }
}

/// What one successful orchestration call produces: the emitted code, an
/// optional position-mapping table, the non-fatal diagnostics collected along
/// the way (in the order they arose), and an optional secondary artifact for
/// modes that return more than code and map.
pub struct CompilationResult {
    pub code: String,
    pub source_map: Option<String>,
    pub diagnostics: Vec<String>,
    pub secondary_output: Option<String>,
}

} // verus!
