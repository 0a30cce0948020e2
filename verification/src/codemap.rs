//! Source coordinates: spans within a file, and the codemap that resolves
//! a span to a file name.

use vstd::prelude::*;

verus! {

/// A half-open range of byte offsets within one source file.
#[derive(Clone, Copy, PartialEq, Eq, Structural, Debug)]
pub struct Span {
    pub begin: u32,
    pub end: u32,
}

impl Span {
    pub fn new(begin: u32, end: u32) -> (s: Span)
        ensures
            s.begin == begin,
            s.end == end,
    {
        Span { begin, end }
    }
}

impl Default for Span {
    /// The empty span at offset zero.
    fn default() -> (s: Span)
        ensures
            s == (Span { begin: 0, end: 0 }),
    {
        Span { begin: 0, end: 0 }
    }
}

/// A span resolved against a codemap: the file it belongs to plus the span.
#[derive(Debug)]
pub struct FileSpan {
    pub file: String,
    pub span: Span,
}

/// The span-resolution table of one module's source: opaque to the rest of
/// the runtime except for resolving a span to its file.
#[derive(Debug)]
pub struct Codemap {
    pub filename: String,
}

impl Codemap {
    pub fn new(filename: String) -> (c: Codemap)
        ensures
            c.filename == filename,
    {
        Codemap { filename }
    }

    pub fn duplicate(&self) -> (r: Codemap)
        ensures
            r == *self,
    {
        Codemap { filename: self.filename.clone() }
    }

    /// Resolve a span to a concrete file span.
    pub fn file_span(&self, span: Span) -> (r: FileSpan)
        ensures
            r.file == self.filename,
            r.span == span,
    {
        FileSpan { file: self.filename.clone(), span }
    }
}

} // verus!
