use vstd::prelude::*;
use vstd::utf8::encode_utf8;

verus! {

/// Where input source text comes from: a filesystem path, or an in-memory
/// (name, text) pair. The name decides the dialect: a name ending in `.tsx`
/// enables the JSX grammar on top of TypeScript.
///
/// Loading the text behind a `FilePath` is the embedding layer's concern;
/// the orchestration functions of this crate consume the `FileName` form.
pub enum File {
    FilePath(String),
    FileName(String, String),
}

/// Whether a byte sequence ends in `.tsx` (the bytes of `'.'`, `'t'`, `'s'`,
/// `'x'`: 46, 116, 115, 120).
pub open spec fn tsx_byte_suffix(b: Seq<u8>) -> bool {
    &&& b.len() >= 4
    &&& b[b.len() - 4] == 46u8
    &&& b[b.len() - 3] == 116u8
    &&& b[b.len() - 2] == 115u8
    &&& b[b.len() - 1] == 120u8
}

/// Whether a source name selects the TSX dialect: its UTF-8 encoding ends in
/// the four bytes of `.tsx`. Since all four suffix bytes are ASCII, this holds
/// exactly of the names whose character sequence ends in `.tsx`.
pub open spec fn is_tsx_name(s: Seq<char>) -> bool {
    tsx_byte_suffix(encode_utf8(s))
}

/// Decides the dialect for a source name: `true` selects the TSX grammar.
pub fn name_is_tsx(name: &str) -> (r: bool)
    ensures
        r == is_tsx_name(name@),
{
    let b = name.as_bytes();
    let n = b.len();
    if n < 4 {
        return false;
    }
    b[n - 4] == 46u8 && b[n - 3] == 116u8 && b[n - 2] == 115u8 && b[n - 1] == 120u8
}

impl File {
    /// The source name carried by this provenance: the path itself for a
    /// `FilePath`, the given name for a `FileName`.
    pub open spec fn spec_name(self) -> Seq<char> {
        match self {
            File::FilePath(p) => p@,
            File::FileName(n, _) => n@,
        }
    }

    /// The in-memory source text; only the `FileName` form carries one.
    pub open spec fn spec_text(self) -> Seq<char> {
        match self {
            File::FilePath(_) => Seq::empty(),
            File::FileName(_, t) => t@,
        }
    }
}

} // verus!
