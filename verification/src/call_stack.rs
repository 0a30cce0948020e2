//! The ordered stack of active call frames, used both for variable-scope
//! switching and for building diagnostic and profiling traces.

use vstd::prelude::*;
use crate::codemap::{Codemap, FileSpan, Span};
use crate::errors::{DiagFrame, EvalError, EvalErrorKind};
use crate::values::{value_display, FrozenHeap, Heap, HeapRecord, Value, ValueData};

verus! {

/// Recursion limit: a push beyond this depth fails with `StackOverflow`.
pub const MAX_CALLSTACK_SIZE: usize = 50;

/// One entry of the call stack: the called value (for diagnostics and
/// profiling identification), the call-site span, and the codemap that
/// resolves the span. A native call site carries no codemap.
#[derive(Debug)]
pub struct Frame {
    pub function: Value,
    pub span: Span,
    pub codemap: Option<Codemap>,
}

/// The call stack. Pushes and pops are strictly balanced by the call
/// boundary of the evaluator, including on failure paths.
#[derive(Debug)]
pub struct CallStack {
    pub frames: Vec<Frame>,
}

/// `df` is the diagnostic rendering of frame `f` against the two arenas.
pub open spec fn diag_frame_matches(
    df: DiagFrame,
    f: Frame,
    records: Seq<HeapRecord>,
    cells: Seq<ValueData>,
) -> bool {
    &&& df.name@ == value_display(records, cells, f.function)
    &&& match f.codemap {
        Option::Some(c) => (df.location matches Option::Some(fs) && fs.file == c.filename
            && fs.span == f.span),
        Option::None => df.location is None,
    }
}

impl CallStack {
    pub fn new() -> (s: CallStack)
        ensures
            s.frames@ =~= Seq::<Frame>::empty(),
    {
        CallStack { frames: Vec::new() }
    }

    pub fn depth(&self) -> (n: usize)
        ensures
            n == self.frames@.len(),
    {
        self.frames.len()
    }

    /// Push a frame, failing with `StackOverflow` at the recursion limit.
    pub fn push(&mut self, function: Value, span: Span, codemap: Option<Codemap>) -> (r: Result<
        (),
        EvalError,
    >)
        ensures
            old(self).frames@.len() < MAX_CALLSTACK_SIZE ==> r is Ok
                && final(self).frames@ =~= old(self).frames@.push(
                Frame { function, span, codemap },
            ),
            old(self).frames@.len() >= MAX_CALLSTACK_SIZE ==> (r matches Result::Err(e)
                && e.kind is StackOverflow && e.frames is None && *final(self) == *old(self)),
    {
        if self.frames.len() >= MAX_CALLSTACK_SIZE {
            Result::Err(EvalError::new(EvalErrorKind::StackOverflow))
        } else {
            self.frames.push(Frame { function, span, codemap });
            Result::Ok(())
        }
    }

    /// Pop the innermost frame; on an empty stack this is a no-op.
    pub fn pop(&mut self)
        ensures
            old(self).frames@.len() > 0 ==> final(self).frames@ =~= old(self).frames@.drop_last(),
            old(self).frames@.len() == 0 ==> final(self).frames@ =~= old(self).frames@,
    {
        let _ = self.frames.pop();
    }

    /// The resolved location of the innermost frame, if that call happened
    /// from a site with a codemap.
    pub fn top_location(&self) -> (r: Option<FileSpan>)
        ensures
            self.frames@.len() == 0 ==> r is None,
            self.frames@.len() > 0 ==> match self.frames@.last().codemap {
                Option::Some(c) => (r matches Option::Some(fs) && fs.file == c.filename
                    && fs.span == self.frames@.last().span),
                Option::None => r is None,
            },
    {
        if self.frames.len() == 0 {
            return Option::None;
        }
        let top = &self.frames[self.frames.len() - 1];
        match &top.codemap {
            Option::Some(c) => Option::Some(c.file_span(top.span)),
            Option::None => Option::None,
        }
    }

    /// The diagnostic view of the stack, innermost frame first: for each
    /// frame the printable identity of the called value and, when the call
    /// site had a codemap, its resolved location.
    pub fn to_diagnostic_frames(&self, heap: &Heap, frozen: &FrozenHeap) -> (r: Vec<DiagFrame>)
        ensures
            r@.len() == self.frames@.len(),
            forall|i: int|
                0 <= i < r@.len() ==> #[trigger] diag_frame_matches(
                    r@[i],
                    self.frames@[self.frames@.len() - 1 - i],
                    heap.records@,
                    frozen.cells@,
                ),
    {
        let mut r: Vec<DiagFrame> = Vec::new();
        let mut k: usize = self.frames.len();
        while k > 0
            invariant
                k <= self.frames@.len(),
                r@.len() == self.frames@.len() - k,
                forall|i: int|
                    0 <= i < r@.len() ==> #[trigger] diag_frame_matches(
                        r@[i],
                        self.frames@[self.frames@.len() - 1 - i],
                        heap.records@,
                        frozen.cells@,
                    ),
            decreases k,
        {
            k = k - 1;
            let f = &self.frames[k];
            let name = crate::values::display_name(heap, frozen, f.function);
            let location = match &f.codemap {
                Option::Some(c) => Option::Some(c.file_span(f.span)),
                Option::None => Option::None,
            };
            r.push(DiagFrame { name, location });
        }
        r
    }
}

} // verus!
