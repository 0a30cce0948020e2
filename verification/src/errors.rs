//! The failure taxonomy of the runtime, and the diagnostic call-stack
//! context attached to a failure the first time it crosses a frame pop.

use vstd::prelude::*;
use crate::codemap::FileSpan;

verus! {

/// One diagnostic frame: the printable identity of the called value and,
/// when the call site had a codemap, its resolved location.
#[derive(Debug)]
pub struct DiagFrame {
    pub name: String,
    pub location: Option<FileSpan>,
}

/// Every way an operation of this runtime can fail. All of these are
/// recoverable: they propagate as ordinary error values.
#[derive(Debug)]
pub enum EvalErrorKind {
    /// A module or local slot was read before it was ever assigned.
    /// Carries the variable's human-readable name, recovered on the error
    /// path only.
    UnboundVariable(String),
    /// The call stack exceeded the recursion limit.
    StackOverflow,
    /// A profile was requested without enabling the call profiler first.
    ProfilingNotEnabled,
    /// A statement profile was requested without enabling the statement
    /// profiler first.
    StmtProfilingNotEnabled,
    /// A `load(...)` was attempted with no loader configured.
    NoLoaderConfigured,
}

/// A failure, together with the call-stack context captured at the first
/// call boundary the failure crossed (innermost frame first). The context
/// is attached exactly once; further frames propagate it unchanged.
#[derive(Debug)]
pub struct EvalError {
    pub kind: EvalErrorKind,
    pub frames: Option<Vec<DiagFrame>>,
}

impl EvalError {
    /// A fresh failure with no diagnostic context yet.
    pub fn new(kind: EvalErrorKind) -> (e: EvalError)
        ensures
            e.kind == kind,
            e.frames is None,
    {
        EvalError { kind, frames: Option::None }
    }

    /// Attach a captured call stack, unless one is already attached.
    pub fn attach_call_stack(&mut self, frames: Vec<DiagFrame>)
        ensures
            old(self).frames is Some ==> *final(self) == *old(self),
            old(self).frames is None ==> final(self).kind == old(self).kind
                && final(self).frames == Option::Some(frames),
    {
        if self.frames.is_none() {
            self.frames = Option::Some(frames);
        }
    }

    /// A short description of the failure, for hosts that print errors.
    pub fn message(&self) -> (m: String)
        ensures
            m@.len() > 0,
    {
        let m: &str = match &self.kind {
            EvalErrorKind::UnboundVariable(_) => "Local variable referenced before assignment",
            EvalErrorKind::StackOverflow => "Starlark call stack overflow",
            EvalErrorKind::ProfilingNotEnabled =>
                "Can't call `write_profile` unless you first call `enable_profile`.",
            EvalErrorKind::StmtProfilingNotEnabled =>
                "Can't call `write_stmt_profile` unless you first call `enable_stmt_profile`.",
            EvalErrorKind::NoLoaderConfigured => "No loader specified, so cannot load",
        };
        proof {
            reveal_strlit("Local variable referenced before assignment");
            reveal_strlit("Starlark call stack overflow");
            reveal_strlit("Can't call `write_profile` unless you first call `enable_profile`.");
            reveal_strlit("Can't call `write_stmt_profile` unless you first call `enable_stmt_profile`.");
            reveal_strlit("No loader specified, so cannot load");
        }
        m.to_owned()
    }
}

} // verus!
