//! The evaluator: the mutable execution context coordinating the module,
//! the slot tables, the call stack, the GC trigger policy and the
//! profiling collectors.
//!
//! The two scope-switching combinators thread the evaluator by value
//! through the nested computation and restore their context on every exit
//! path: `with_call_stack` pops its frame whether the computation
//! succeeded or failed (capturing the diagnostic stack before the pop),
//! and `with_function_context` restores the prior module-variable
//! override and the prior codemap whether the computation succeeded or
//! failed.

use vstd::prelude::*;
use crate::call_stack::{diag_frame_matches, CallStack, Frame, MAX_CALLSTACK_SIZE};
use crate::clock::now_nanos;
use crate::codemap::{Codemap, FileSpan, Span};
use crate::errors::{DiagFrame, EvalError, EvalErrorKind};
use crate::module::{
    frozen_slot_value, module_slot_value, FrozenModuleRef, Globals, Module, ModuleLoader,
};
use crate::profile::HeapProfile;
use crate::profile::HeapProfileFormat;
use crate::slots::{local_slot_value, LocalFrame, LocalSlots};
use crate::stmt_profile::StmtProfile;
use crate::values::{data_size, FrozenHeap, Heap, HeapRecord, Value, ValueData};

verus! {

/// Bytes of allocation volume between collection opportunities.
pub const GC_THRESHOLD: u64 = 100000;

/// Holds everything about an ongoing evaluation: module resolution,
/// local variables, the call stack, GC-trigger state and profiling.
#[derive(Debug)]
pub struct Evaluator {
    /// The module this evaluation runs against.
    pub module: Module,
    /// The module-variable override: `None` while executing the top
    /// module's own code, `Some` while executing a function defined in a
    /// loaded frozen module.
    pub module_variables: Option<FrozenModuleRef>,
    /// Local variables of the active calls.
    pub local_variables: LocalSlots,
    /// The resolver for global names.
    pub globals: Globals,
    /// The stack of active calls.
    pub call_stack: CallStack,
    /// The collaborator for `load(...)`; absent until configured.
    pub loader: Option<ModuleLoader>,
    /// The codemap of the code currently executing; starts not yet bound
    /// and is installed before first use.
    pub codemap: Option<Codemap>,
    /// The call/heap profiler.
    pub heap_profile: HeapProfile,
    /// The statement profiler.
    pub stmt_profile: StmtProfile,
    /// Permanently set once automatic collection must never run again.
    pub disable_gc: bool,
    /// Allocation volume at which the next collection is permitted.
    pub next_gc_level: u64,
}

/// A collection is permitted only when collection was never disabled and
/// the allocation volume has reached the watermark.
pub open spec fn gc_permitted(e: Evaluator) -> bool {
    !e.disable_gc && e.module.heap.allocated_bytes >= e.next_gc_level
}

/// The evaluator after `enable_profile`: the call profiler is on and, as
/// its side effect, automatic collection is permanently disabled.
pub open spec fn profile_enabled_state(e: Evaluator) -> Evaluator {
    Evaluator { heap_profile: HeapProfile { enabled: true }, disable_gc: true, ..e }
}

/// The evaluator after `trigger_gc`: the watermark drops to zero.
pub open spec fn gc_triggered_state(e: Evaluator) -> Evaluator {
    Evaluator { next_gc_level: 0, ..e }
}

/// Law: enabling the call profiler permanently blocks collection. Even a
/// later explicit `trigger_gc` leaves collection impermissible — the
/// trigger silently has no effect after profiling-driven disablement.
pub proof fn lemma_profiling_blocks_collection(e: Evaluator)
    ensures
        profile_enabled_state(e).disable_gc,
        !gc_permitted(gc_triggered_state(profile_enabled_state(e))),
{
}

/// The frame `with_call_stack` pushes: the call-site span when one is
/// given, and the current codemap for a call site that has a span (a
/// native call site has neither).
pub open spec fn frame_for(e: Evaluator, function: Value, span: Option<Span>) -> Frame {
    Frame {
        function,
        span: match span {
            Option::Some(s) => s,
            Option::None => Span { begin: 0, end: 0 },
        },
        codemap: match span {
            Option::Some(_) => e.codemap,
            Option::None => Option::None,
        },
    }
}

/// `post` is `pre` right after the call boundary was entered: the frame
/// is pushed and, when the call profiler is on, a call-enter marker with
/// some wall-clock timestamp stands in the heap record. Nothing else
/// changed.
pub open spec fn after_call_enter(
    pre: Evaluator,
    function: Value,
    span: Option<Span>,
    post: Evaluator,
) -> bool {
    &&& post.call_stack.frames@ == pre.call_stack.frames@.push(frame_for(pre, function, span))
    &&& (if pre.heap_profile.enabled {
        exists|t: u64|
            post.module.heap.records@ == pre.module.heap.records@.push(
                HeapRecord::CallEnter { function, time: t },
            )
    } else {
        post.module.heap.records@ == pre.module.heap.records@
    })
    &&& post.module.heap.allocated_bytes == pre.module.heap.allocated_bytes
    &&& post.module == (Module { heap: post.module.heap, ..pre.module })
    &&& post == (Evaluator { call_stack: post.call_stack, module: post.module, ..pre })
}

/// `post` is `pre` right after the call boundary was left: the innermost
/// frame is popped and, when the call profiler is on, a call-exit marker
/// with some wall-clock timestamp stands in the heap record. Nothing else
/// changed.
pub open spec fn after_call_exit(pre: Evaluator, post: Evaluator) -> bool {
    &&& post.call_stack.frames@ == pre.call_stack.frames@.drop_last()
    &&& (if pre.heap_profile.enabled {
        exists|t: u64|
            post.module.heap.records@ == pre.module.heap.records@.push(
                HeapRecord::CallExit { time: t },
            )
    } else {
        post.module.heap.records@ == pre.module.heap.records@
    })
    &&& post.module.heap.allocated_bytes == pre.module.heap.allocated_bytes
    &&& post.module == (Module { heap: post.module.heap, ..pre.module })
    &&& post == (Evaluator { call_stack: post.call_stack, module: post.module, ..pre })
}

/// `e2` is the failure `e` enriched with diagnostic context exactly once:
/// a failure that already carries a call stack propagates unchanged, and
/// one that does not gets the stack of `oe`, innermost frame first,
/// captured before the frame pop.
pub open spec fn error_with_stack(e: EvalError, oe: Evaluator, e2: EvalError) -> bool {
    if e.frames is Some {
        e2 == e
    } else {
        &&& e2.kind == e.kind
        &&& (e2.frames matches Option::Some(fs) && fs@.len() == oe.call_stack.frames@.len() && (
        forall|i: int|
            0 <= i < fs@.len() ==> #[trigger] diag_frame_matches(
                fs@[i],
                oe.call_stack.frames@[oe.call_stack.frames@.len() - 1 - i],
                oe.module.heap.records@,
                oe.module.frozen_heap.cells@,
            )))
    }
}

/// The evaluator after `with_function_context` installed the callee's
/// context: the callee's module-variable override and codemap are in
/// place (the codemap also in the statement profiler). Nothing else
/// changed.
pub open spec fn context_switched(
    e: Evaluator,
    module: Option<FrozenModuleRef>,
    codemap: Codemap,
) -> Evaluator {
    Evaluator {
        module_variables: module,
        codemap: Option::Some(codemap),
        stmt_profile: StmtProfile { codemap: Option::Some(codemap), ..e.stmt_profile },
        ..e
    }
}

/// What reading module slot `slot` yields under the current override:
/// the bound module's own slot when no override is active, else the
/// frozen view's slot, marked frozen-origin.
pub open spec fn module_slot_read(e: Evaluator, slot: int) -> Option<Value> {
    match e.module_variables {
        Option::None => module_slot_value(e.module, slot),
        Option::Some(f) => match frozen_slot_value(f, slot) {
            Option::Some(fv) => Option::Some(Value::Frozen(fv.idx)),
            Option::None => Option::None,
        },
    }
}

/// The variable name reported when module slot `slot` is unbound,
/// recovered from whichever slot table is active.
pub open spec fn module_slot_name(e: Evaluator, slot: int) -> Seq<char> {
    match e.module_variables {
        Option::None => if 0 <= slot < e.module.names@.len() {
            e.module.names@[slot]@
        } else {
            "<unknown>"@
        },
        Option::Some(f) => if 0 <= slot < f.names@.len() {
            f.names@[slot]@
        } else {
            "<unknown>"@
        },
    }
}

/// The values a slot table holds, in slot order.
pub open spec fn some_values(s: Seq<Option<Value>>) -> Seq<Value>
    decreases s.len(),
{
    if s.len() == 0 {
        Seq::<Value>::empty()
    } else {
        some_values(s.drop_last()) + (match s.last() {
            Option::Some(v) => seq![v],
            Option::None => Seq::<Value>::empty(),
        })
    }
}

/// The values all local frames hold, outermost frame first.
pub open spec fn local_roots(frames: Seq<LocalFrame>) -> Seq<Value>
    decreases frames.len(),
{
    if frames.len() == 0 {
        Seq::<Value>::empty()
    } else {
        local_roots(frames.drop_last()) + some_values(frames.last().slots@)
    }
}

/// The called values of all active frames, outermost first.
pub open spec fn stack_roots(frames: Seq<Frame>) -> Seq<Value>
    decreases frames.len(),
{
    if frames.len() == 0 {
        Seq::<Value>::empty()
    } else {
        stack_roots(frames.drop_last()) + seq![frames.last().function]
    }
}

/// The authoritative root set of an evaluation: every module slot of the
/// bound module, every local-variable frame on the stack, and every
/// value referenced by an active call-stack frame.
pub open spec fn root_set(e: Evaluator) -> Seq<Value> {
    some_values(e.module.slots@) + local_roots(e.local_variables.frames@) + stack_roots(
        e.call_stack.frames@,
    )
}

impl Evaluator {
    /// A fresh evaluation context bound to `module` for module variables
    /// and `globals` for global names: no override, no loader, codemap
    /// not yet bound, GC enabled with a full threshold, both profilers
    /// off, and empty local and call stacks.
    pub fn new(module: Module, globals: Globals) -> (e: Evaluator)
        ensures
            e.module == module,
            e.globals == globals,
            e.module_variables is None,
            e.local_variables.frames@ =~= Seq::<LocalFrame>::empty(),
            e.call_stack.frames@ =~= Seq::<Frame>::empty(),
            e.loader is None,
            e.codemap is None,
            !e.heap_profile.enabled,
            !e.stmt_profile.enabled,
            !e.disable_gc,
            e.next_gc_level == GC_THRESHOLD,
    {
        Evaluator {
            module,
            module_variables: Option::None,
            local_variables: LocalSlots::new(),
            globals,
            call_stack: CallStack::new(),
            loader: Option::None,
            codemap: Option::None,
            heap_profile: HeapProfile::new(),
            stmt_profile: StmtProfile::new(),
            disable_gc: false,
            next_gc_level: GC_THRESHOLD,
        }
    }

    /// Disable automatic collection from now onwards; it cannot be
    /// re-enabled. Required whenever the host has captured heap values
    /// outside the root set the GC protocol understands.
    pub fn disable_gc(&mut self)
        ensures
            *final(self) == (Evaluator { disable_gc: true, ..*old(self) }),
    {
        self.disable_gc = true;
    }

    /// Record the collaborator used to resolve `load(...)` statements.
    pub fn set_loader(&mut self, loader: ModuleLoader)
        ensures
            *final(self) == (Evaluator { loader: Option::Some(loader), ..*old(self) }),
    {
        self.loader = Option::Some(loader);
    }

    /// The configured loader, or the deferred `NoLoaderConfigured`
    /// failure at first use.
    pub fn require_loader(&self) -> (r: Result<&ModuleLoader, EvalError>)
        ensures
            match self.loader {
                Option::Some(l) => (r matches Result::Ok(rl) && *rl == l),
                Option::None => (r matches Result::Err(e) && e.kind is NoLoaderConfigured
                    && e.frames is None),
            },
    {
        match &self.loader {
            Option::Some(l) => Result::Ok(l),
            Option::None => Result::Err(EvalError::new(EvalErrorKind::NoLoaderConfigured)),
        }
    }

    /// Enable the call/heap profiler. Side effect: automatic collection
    /// is disabled, because the profiler relies on the heap's linear
    /// record staying in allocation order.
    pub fn enable_profile(&mut self)
        ensures
            *final(self) == profile_enabled_state(*old(self)),
    {
        self.heap_profile.enable();
        self.disable_gc = true;
    }

    /// Enable the statement profiler. Independent of the call profiler;
    /// does not disable collection.
    pub fn enable_stmt_profile(&mut self)
        ensures
            *final(self) == (Evaluator {
                stmt_profile: StmtProfile { enabled: true, ..old(self).stmt_profile },
                ..*old(self)
            }),
    {
        self.stmt_profile.enable();
    }

    /// The pre-statement hook: called by the statement dispatch layer
    /// before each statement with that statement's span. Feeds the
    /// statement profiler when it is enabled.
    pub fn before_stmt(&mut self, span: Span)
        ensures
            !old(self).stmt_profile.enabled ==> *final(self) == *old(self),
            old(self).stmt_profile.enabled ==> (exists|now: u64|
                crate::stmt_profile::stmt_profile_step(
                    old(self).stmt_profile,
                    span,
                    now,
                    final(self).stmt_profile,
                )) && *final(self) == (Evaluator {
                stmt_profile: final(self).stmt_profile,
                ..*old(self)
            }),
    {
        if self.stmt_profile.enabled {
            let now = now_nanos();
            self.stmt_profile.before_stmt(span, now);
        }
    }

    /// The tabular or folded profile of this evaluation's heap. Only
    /// valid once `enable_profile` was called; before that the request
    /// fails with `ProfilingNotEnabled`.
    pub fn write_profile(&self, format: HeapProfileFormat) -> (r: Result<String, EvalError>)
        ensures
            !self.heap_profile.enabled ==> (r matches Result::Err(e) && e.kind
                is ProfilingNotEnabled && e.frames is None),
            self.heap_profile.enabled ==> (r matches Result::Ok(s) && s@
                == crate::profile::gen_output(self.module.heap.records@, format)),
    {
        match self.heap_profile.gen(&self.module.heap, format) {
            Option::Some(s) => Result::Ok(s),
            Option::None => Result::Err(EvalError::new(EvalErrorKind::ProfilingNotEnabled)),
        }
    }

    /// The statement profile of this evaluation. Only valid once
    /// `enable_stmt_profile` was called; before that the request fails
    /// with `StmtProfilingNotEnabled`.
    pub fn write_stmt_profile(&self) -> (r: Result<String, EvalError>)
        ensures
            !self.stmt_profile.enabled ==> (r matches Result::Err(e) && e.kind
                is StmtProfilingNotEnabled && e.frames is None),
            self.stmt_profile.enabled ==> (r matches Result::Ok(s) && s@
                == crate::stmt_profile::stmt_csv(self.stmt_profile.rows@)),
    {
        match self.stmt_profile.gen() {
            Option::Some(s) => Result::Ok(s),
            Option::None => Result::Err(EvalError::new(EvalErrorKind::StmtProfilingNotEnabled)),
        }
    }

    /// The current call stack as diagnostic frames, innermost first.
    pub fn call_stack(&self) -> (r: Vec<DiagFrame>)
        ensures
            r@.len() == self.call_stack.frames@.len(),
            forall|i: int|
                0 <= i < r@.len() ==> #[trigger] diag_frame_matches(
                    r@[i],
                    self.call_stack.frames@[self.call_stack.frames@.len() - 1 - i],
                    self.module.heap.records@,
                    self.module.frozen_heap.cells@,
                ),
    {
        self.call_stack.to_diagnostic_frames(&self.module.heap, &self.module.frozen_heap)
    }

    /// The top location on the call stack; `None` when the innermost
    /// call happened via a native call site.
    pub fn call_stack_top_location(&self) -> (r: Option<FileSpan>)
        ensures
            self.call_stack.frames@.len() == 0 ==> r is None,
            self.call_stack.frames@.len() > 0 ==> match self.call_stack.frames@.last().codemap {
                Option::Some(c) => (r matches Option::Some(fs) && fs.file == c.filename
                    && fs.span == self.call_stack.frames@.last().span),
                Option::None => r is None,
            },
    {
        self.call_stack.top_location()
    }

    /// Resolve `span` against the codemap currently at the top of the
    /// stack; an unbound codemap resolves to an empty file name.
    pub fn file_span(&self, span: Span) -> (r: FileSpan)
        ensures
            r.span == span,
            match self.codemap {
                Option::Some(c) => r.file == c.filename,
                Option::None => r.file@ == Seq::<char>::empty(),
            },
    {
        match &self.codemap {
            Option::Some(c) => c.file_span(span),
            Option::None => FileSpan { file: String::new(), span },
        }
    }

    /// The module this evaluation runs against.
    pub fn module(&self) -> (r: &Module)
        ensures
            *r == self.module,
    {
        &self.module
    }

    /// Finish the evaluation and hand the module back to the host, with
    /// every binding the evaluation made.
    pub fn into_module(self) -> (r: Module)
        ensures
            r == self.module,
    {
        self.module
    }

    /// The active heap where values are allocated.
    pub fn heap(&self) -> (r: &Heap)
        ensures
            *r == self.module.heap,
    {
        &self.module.heap
    }

    /// The frozen heap of the bound module.
    pub fn frozen_heap(&self) -> (r: &FrozenHeap)
        ensures
            *r == self.module.frozen_heap,
    {
        &self.module.frozen_heap
    }

    /// Allocate `data` on the active heap.
    pub fn alloc_value(&mut self, data: ValueData) -> (v: Value)
        ensures
            final(self).module.heap.records@ == old(self).module.heap.records@.push(
                HeapRecord::Data(data),
            ),
            final(self).module.heap.allocated_bytes == old(
                self,
            ).module.heap.allocated_bytes.saturating_add(data_size(data)),
            v == Value::Mutable(old(self).module.heap.records@.len() as usize),
            final(self).module == (Module { heap: final(self).module.heap, ..old(self).module }),
            *final(self) == (Evaluator { module: final(self).module, ..*old(self) }),
    {
        self.module.heap.allocate(data)
    }

    /// Read module slot `slot` under the current override. Reading a slot
    /// never assigned fails with `UnboundVariable`, recovering the name
    /// on the error path only.
    pub fn get_slot_module(&self, slot: usize) -> (r: Result<Value, EvalError>)
        ensures
            match module_slot_read(*self, slot as int) {
                Option::Some(v) => r == Result::<Value, EvalError>::Ok(v),
                Option::None => (r matches Result::Err(e) && e.kind matches
                    EvalErrorKind::UnboundVariable(n) && n@ == module_slot_name(*self, slot as int)
                    && e.frames is None),
            },
    {
        let read: Option<Value> = match &self.module_variables {
            Option::None => self.module.get_slot(slot),
            Option::Some(f) => match f.get_slot(slot) {
                Option::Some(fv) => Option::Some(Value::new_frozen(fv)),
                Option::None => Option::None,
            },
        };
        match read {
            Option::Some(v) => Result::Ok(v),
            Option::None => {
                let name: String = match &self.module_variables {
                    Option::None => match self.module.get_slot_name(slot) {
                        Option::Some(n) => n,
                        Option::None => "<unknown>".to_owned(),
                    },
                    Option::Some(f) => match f.get_slot_name(slot) {
                        Option::Some(n) => n,
                        Option::None => "<unknown>".to_owned(),
                    },
                };
                Result::Err(EvalError::new(EvalErrorKind::UnboundVariable(name)))
            },
        }
    }

    /// Read local slot `slot` of the innermost frame. Reading a slot
    /// never assigned fails with `UnboundVariable`, reporting the name
    /// the prepared program retained for it.
    pub fn get_slot_local(&self, slot: usize, name: &str) -> (r: Result<Value, EvalError>)
        ensures
            match local_slot_value(self.local_variables, slot as int) {
                Option::Some(v) => r == Result::<Value, EvalError>::Ok(v),
                Option::None => (r matches Result::Err(e) && e.kind matches
                    EvalErrorKind::UnboundVariable(n) && n@ == name@ && e.frames is None),
            },
    {
        match self.local_variables.get_slot(slot) {
            Option::Some(v) => Result::Ok(v),
            Option::None => Result::Err(
                EvalError::new(EvalErrorKind::UnboundVariable(name.to_owned())),
            ),
        }
    }

    /// Assign module slot `slot` of the bound module (never the frozen
    /// override). Ids are in range by construction upstream.
    pub fn set_slot_module(&mut self, slot: usize, value: Value)
        requires
            slot < old(self).module.slots@.len(),
        ensures
            final(self).module.slots@ == old(self).module.slots@.update(
                slot as int,
                Option::Some(value),
            ),
            final(self).module == (Module { slots: final(self).module.slots, ..old(self).module }),
            *final(self) == (Evaluator { module: final(self).module, ..*old(self) }),
    {
        self.module.set_slot(slot, value);
        proof {
            assert(final(self).module.slots@ =~= old(self).module.slots@.update(
                slot as int,
                Option::Some(value),
            ));
        }
    }

    /// Assign local slot `slot` of the innermost frame. Ids are in range
    /// by construction upstream.
    pub fn set_slot_local(&mut self, slot: usize, value: Value)
        requires
            old(self).local_variables.frames@.len() > 0,
            slot < old(self).local_variables.frames@.last().slots@.len(),
        ensures
            final(self).local_variables.frames@.len() == old(self).local_variables.frames@.len(),
            final(self).local_variables.frames@.drop_last() == old(
                self,
            ).local_variables.frames@.drop_last(),
            final(self).local_variables.frames@.last().slots@ == old(
                self,
            ).local_variables.frames@.last().slots@.update(slot as int, Option::Some(value)),
            *final(self) == (Evaluator {
                local_variables: final(self).local_variables,
                ..*old(self)
            }),
    {
        self.local_variables.set_slot(slot, value);
    }

    /// Push a fresh frame of `size` unassigned local slots, for a call
    /// about to run.
    pub fn push_local_frame(&mut self, size: usize)
        ensures
            final(self).local_variables.frames@.len() == old(self).local_variables.frames@.len()
                + 1,
            final(self).local_variables.frames@.drop_last() == old(self).local_variables.frames@,
            final(self).local_variables.frames@.last().slots@ == Seq::new(
                size as nat,
                |i: int| Option::<Value>::None,
            ),
            *final(self) == (Evaluator {
                local_variables: final(self).local_variables,
                ..*old(self)
            }),
    {
        self.local_variables.push_frame(size);
    }

    /// Pop the innermost local frame when its call has returned.
    pub fn pop_local_frame(&mut self)
        ensures
            old(self).local_variables.frames@.len() > 0 ==> final(self).local_variables.frames@
                == old(self).local_variables.frames@.drop_last(),
            old(self).local_variables.frames@.len() == 0 ==> final(self).local_variables.frames@
                == old(self).local_variables.frames@,
            *final(self) == (Evaluator {
                local_variables: final(self).local_variables,
                ..*old(self)
            }),
    {
        self.local_variables.pop_frame();
    }

    /// Bind `name` in the top-level module currently being processed
    /// (never the frozen override); the binding is visible in the module
    /// after evaluation returns.
    pub fn set_module_variable_at_some_point(&mut self, name: String, value: Value) -> (r: Result<
        (),
        EvalError,
    >)
        requires
            old(self).module.wf(),
        ensures
            r is Ok,
            final(self).module.wf(),
            crate::module::set_binds(old(self).module, name, value, final(self).module),
            *final(self) == (Evaluator { module: final(self).module, ..*old(self) }),
    {
        self.module.set(name, value);
        Result::Ok(())
    }

    /// Force the next collection opportunity: the watermark drops to
    /// zero, so any allocation volume reaches it. If collection was
    /// disabled (for instance by enabling the call profiler), this
    /// silently has no effect on permissibility.
    pub fn trigger_gc(&mut self)
        ensures
            *final(self) == gc_triggered_state(*old(self)),
    {
        self.next_gc_level = 0;
    }

    /// Whether a collection is permitted at this checkpoint: collection
    /// was never disabled and the allocation volume reached the
    /// watermark.
    pub fn gc_requested(&self) -> (r: bool)
        ensures
            r == gc_permitted(*self),
    {
        !self.disable_gc && self.module.heap.allocated_bytes >= self.next_gc_level
    }

    /// The call-boundary combinator, used for every call (including ones
    /// into native code, which pass no span). In order: push a frame
    /// (failing with `StackOverflow` at the recursion limit), record a
    /// call-enter marker if the call profiler is on, run `within`, attach
    /// the current call stack to a failure before anything is popped,
    /// then unconditionally pop the frame and record a call-exit marker.
    /// The stack depth after the call is exactly what it was before, on
    /// success and on failure.
    pub fn with_call_stack<R, F: FnOnce(Evaluator) -> (Evaluator, Result<R, EvalError>)>(
        self,
        function: Value,
        span: Option<Span>,
        within: F,
    ) -> (res: (Evaluator, Result<R, EvalError>))
        requires
            forall|e: Evaluator|
                after_call_enter(self, function, span, e) ==> #[trigger] call_requires(
                    within,
                    (e,),
                ),
            forall|e: Evaluator, out: (Evaluator, Result<R, EvalError>)|
                #[trigger] call_ensures(within, (e,), out) ==> out.0.call_stack.frames@
                    == e.call_stack.frames@,
        ensures
            res.0.call_stack.frames@ == self.call_stack.frames@,
            self.call_stack.frames@.len() >= MAX_CALLSTACK_SIZE ==> res.0 == self && (res.1
                matches Result::Err(e) && e.kind is StackOverflow && e.frames is None),
            self.call_stack.frames@.len() < MAX_CALLSTACK_SIZE ==> exists|
                mid: Evaluator,
                out: (Evaluator, Result<R, EvalError>),
            |
                {
                    &&& after_call_enter(self, function, span, mid)
                    &&& #[trigger] call_ensures(within, (mid,), out)
                    &&& after_call_exit(out.0, res.0)
                    &&& match out.1 {
                        Result::Ok(v) => (res.1 matches Result::Ok(w) && w == v),
                        Result::Err(e) => (res.1 matches Result::Err(e2) && error_with_stack(
                            e,
                            out.0,
                            e2,
                        )),
                    }
                },
    {
        let span_v: Span = match span {
            Option::Some(s) => s,
            Option::None => Span::default(),
        };
        let cm: Option<Codemap> = match span {
            Option::Some(_) => match &self.codemap {
                Option::Some(c) => Option::Some(c.duplicate()),
                Option::None => Option::None,
            },
            Option::None => Option::None,
        };
        let mut me = self;
        match me.call_stack.push(function, span_v, cm) {
            Result::Err(e) => {
                return (me, Result::Err(e));
            },
            Result::Ok(()) => {},
        }
        let hp = me.heap_profile;
        hp.record_call_enter(function, &mut me.module.heap);
        proof {
            assert(after_call_enter(self, function, span, me));
        }
        let ghost mid = me;
        let (mut e2, r) = within(me);
        let ghost out = (e2, r);
        let r2: Result<R, EvalError> = match r {
            Result::Ok(v) => Result::Ok(v),
            Result::Err(mut err) => {
                let frames = e2.call_stack.to_diagnostic_frames(
                    &e2.module.heap,
                    &e2.module.frozen_heap,
                );
                err.attach_call_stack(frames);
                Result::Err(err)
            },
        };
        e2.call_stack.pop();
        let hp2 = e2.heap_profile;
        hp2.record_call_exit(&mut e2.module.heap);
        proof {
            assert(out.0.call_stack.frames@ == mid.call_stack.frames@);
            assert(mid.call_stack.frames@.drop_last() =~= self.call_stack.frames@);
            assert(after_call_exit(out.0, e2));
        }
        (e2, r2)
    }

    /// The scope-switching combinator for user-defined function bodies:
    /// install the callee's module-variable override (`None` when the
    /// callee belongs to this evaluation's own top module) and the
    /// callee's codemap, run `within`, and unconditionally restore both
    /// saved values on every exit path before returning to the caller.
    pub fn with_function_context<R, F: FnOnce(Evaluator) -> (Evaluator, R)>(
        self,
        module: Option<FrozenModuleRef>,
        codemap: Codemap,
        within: F,
    ) -> (res: (Evaluator, R))
        requires
            call_requires(within, (context_switched(self, module, codemap),)),
        ensures
            res.0.codemap == self.codemap,
            res.0.module_variables == self.module_variables,
            res.0.stmt_profile.codemap == self.stmt_profile.codemap,
            exists|out: (Evaluator, R)|
                {
                    &&& #[trigger] call_ensures(
                        within,
                        (context_switched(self, module, codemap),),
                        out,
                    )
                    &&& res.1 == out.1
                    &&& res.0 == (Evaluator {
                        codemap: self.codemap,
                        module_variables: self.module_variables,
                        stmt_profile: StmtProfile {
                            codemap: self.stmt_profile.codemap,
                            ..out.0.stmt_profile
                        },
                        ..out.0
                    })
                },
    {
        let mut me = self;
        let saved_codemap = me.codemap.take();
        let saved_module_variables = me.module_variables.take();
        let saved_stmt_codemap = me.stmt_profile.codemap.take();
        let cm2 = codemap.duplicate();
        me.codemap = Option::Some(codemap);
        me.stmt_profile.set_codemap(cm2);
        me.module_variables = module;
        proof {
            assert(me == context_switched(self, module, codemap));
        }
        let (mut e2, r) = within(me);
        let ghost out = (e2, r);
        e2.codemap = saved_codemap;
        e2.module_variables = saved_module_variables;
        e2.stmt_profile.codemap = saved_stmt_codemap;
        (e2, r)
    }

    /// Present every currently-reachable root to the collector: all
    /// module slots of the bound module, every local-variable frame on
    /// the stack, and the called value of every active call-stack frame.
    /// This enumeration is authoritative: it is the complete root set.
    pub fn walk_roots(&self) -> (r: Vec<Value>)
        ensures
            r@ == root_set(*self),
    {
        let mut r: Vec<Value> = Vec::new();
        let mut i: usize = 0;
        proof {
            assert(self.module.slots@.take(0) =~= Seq::<Option<Value>>::empty());
            assert(r@ =~= some_values(self.module.slots@.take(0)));
        }
        while i < self.module.slots.len()
            invariant
                i <= self.module.slots@.len(),
                r@ == some_values(self.module.slots@.take(i as int)),
            decreases self.module.slots@.len() - i,
        {
            match self.module.slots[i] {
                Option::Some(v) => {
                    r.push(v);
                },
                Option::None => {},
            }
            proof {
                assert(self.module.slots@.take(i + 1).drop_last() =~= self.module.slots@.take(
                    i as int,
                ));
                assert(self.module.slots@.take(i + 1).last() == self.module.slots@[i as int]);
                assert(r@ =~= some_values(self.module.slots@.take(i + 1)));
            }
            i = i + 1;
        }
        proof {
            assert(self.module.slots@.take(self.module.slots@.len() as int)
                =~= self.module.slots@);
        }
        let ghost module_part = r@;
        let mut f: usize = 0;
        proof {
            assert(self.local_variables.frames@.take(0) =~= Seq::<LocalFrame>::empty());
            assert(r@ =~= module_part + local_roots(self.local_variables.frames@.take(0)));
        }
        while f < self.local_variables.frames.len()
            invariant
                f <= self.local_variables.frames@.len(),
                module_part == some_values(self.module.slots@),
                r@ == module_part + local_roots(self.local_variables.frames@.take(f as int)),
            decreases self.local_variables.frames@.len() - f,
        {
            let frame = &self.local_variables.frames[f];
            let ghost frame_start = r@;
            let mut j: usize = 0;
            proof {
                assert(frame.slots@.take(0) =~= Seq::<Option<Value>>::empty());
                assert(r@ =~= frame_start + some_values(frame.slots@.take(0)));
            }
            while j < frame.slots.len()
                invariant
                    j <= frame.slots@.len(),
                    frame == self.local_variables.frames@[f as int],
                    r@ == frame_start + some_values(frame.slots@.take(j as int)),
                decreases frame.slots@.len() - j,
            {
                match frame.slots[j] {
                    Option::Some(v) => {
                        r.push(v);
                    },
                    Option::None => {},
                }
                proof {
                    assert(frame.slots@.take(j + 1).drop_last() =~= frame.slots@.take(j as int));
                    assert(frame.slots@.take(j + 1).last() == frame.slots@[j as int]);
                    assert(r@ =~= frame_start + some_values(frame.slots@.take(j + 1)));
                }
                j = j + 1;
            }
            proof {
                assert(frame.slots@.take(frame.slots@.len() as int) =~= frame.slots@);
                assert(self.local_variables.frames@.take(f + 1).drop_last()
                    =~= self.local_variables.frames@.take(f as int));
                assert(self.local_variables.frames@.take(f + 1).last()
                    == self.local_variables.frames@[f as int]);
                assert(r@ =~= module_part + local_roots(
                    self.local_variables.frames@.take(f + 1),
                ));
            }
            f = f + 1;
        }
        proof {
            assert(self.local_variables.frames@.take(self.local_variables.frames@.len() as int)
                =~= self.local_variables.frames@);
        }
        let ghost locals_part = r@;
        let mut k: usize = 0;
        proof {
            assert(self.call_stack.frames@.take(0) =~= Seq::<Frame>::empty());
            assert(r@ =~= locals_part + stack_roots(self.call_stack.frames@.take(0)));
        }
        while k < self.call_stack.frames.len()
            invariant
                k <= self.call_stack.frames@.len(),
                locals_part == some_values(self.module.slots@) + local_roots(
                    self.local_variables.frames@,
                ),
                r@ == locals_part + stack_roots(self.call_stack.frames@.take(k as int)),
            decreases self.call_stack.frames@.len() - k,
        {
            r.push(self.call_stack.frames[k].function);
            proof {
                assert(self.call_stack.frames@.take(k + 1).drop_last()
                    =~= self.call_stack.frames@.take(k as int));
                assert(self.call_stack.frames@.take(k + 1).last()
                    == self.call_stack.frames@[k as int]);
                assert(r@ =~= locals_part + stack_roots(self.call_stack.frames@.take(k + 1)));
            }
            k = k + 1;
        }
        proof {
            assert(self.call_stack.frames@.take(self.call_stack.frames@.len() as int)
                =~= self.call_stack.frames@);
        }
        r
    }

    /// Record that the host-driven collector finished a collection that
    /// left `live_bytes` of live allocation volume: the watermark is
    /// reset relative to that amount.
    pub fn finish_gc(&mut self, live_bytes: u64)
        ensures
            *final(self) == (Evaluator {
                next_gc_level: live_bytes.saturating_add(GC_THRESHOLD),
                ..*old(self)
            }),
    {
        self.next_gc_level = live_bytes.saturating_add(GC_THRESHOLD);
    }
}

} // verus!

