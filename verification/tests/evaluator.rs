use starlark_runtime::codemap::{Codemap, Span};
use starlark_runtime::errors::{EvalError, EvalErrorKind};
use starlark_runtime::evaluator::Evaluator;
use starlark_runtime::module::{Globals, Module, ModuleLoader};
use starlark_runtime::values::{Value, ValueData};

fn fresh() -> Evaluator {
    Evaluator::new(Module::new(), Globals::new())
}

fn data_of(e: &Evaluator, v: Value) -> ValueData {
    match v {
        Value::Mutable(i) => e.heap().get(i).expect("dangling mutable handle").duplicate(),
        Value::Frozen(i) => e.frozen_heap().get(i).expect("dangling frozen handle").duplicate(),
    }
}

#[test]
fn unbound_module_slot_fails() {
    let mut module = Module::new();
    let slot = module.add_variable("speed".to_string());
    let eval = Evaluator::new(module, Globals::new());
    match eval.get_slot_module(slot) {
        Err(e) => match e.kind {
            EvalErrorKind::UnboundVariable(name) => assert_eq!(name, "speed"),
            other => panic!("expected UnboundVariable, got {:?}", other),
        },
        Ok(v) => panic!("unbound read returned a value: {:?}", v),
    }
}

#[test]
fn assigned_module_slot_reads_back() {
    let mut module = Module::new();
    let slot = module.add_variable("speed".to_string());
    let mut eval = Evaluator::new(module, Globals::new());
    let v = eval.alloc_value(ValueData::Int(88));
    eval.set_slot_module(slot, v);
    let read = eval.get_slot_module(slot).expect("assigned slot must read back");
    assert_eq!(read, v);
    assert!(matches!(data_of(&eval, read), ValueData::Int(88)));
}

#[test]
fn unbound_local_slot_fails() {
    let mut eval = fresh();
    eval.push_local_frame(2);
    match eval.get_slot_local(1, "x") {
        Err(e) => match e.kind {
            EvalErrorKind::UnboundVariable(name) => assert_eq!(name, "x"),
            other => panic!("expected UnboundVariable, got {:?}", other),
        },
        Ok(v) => panic!("unbound read returned a value: {:?}", v),
    }
}

#[test]
fn assigned_local_slot_reads_back() {
    let mut eval = fresh();
    eval.push_local_frame(1);
    let v = eval.alloc_value(ValueData::Int(5));
    eval.set_slot_local(0, v);
    assert_eq!(eval.get_slot_local(0, "x").unwrap(), v);
    eval.pop_local_frame();
    assert!(eval.get_slot_local(0, "x").is_err());
}

#[test]
fn call_stack_balanced_on_success_and_failure() {
    let eval = fresh();
    let mut eval = eval;
    let f = eval.alloc_value(ValueData::Function("f".to_string()));
    assert_eq!(eval.call_stack.frames.len(), 0);
    let (eval, r) = eval.with_call_stack(f, None, |e| (e, Ok(1u32)));
    assert_eq!(r.unwrap(), 1);
    assert_eq!(eval.call_stack.frames.len(), 0);
    let (eval, r): (Evaluator, Result<u32, EvalError>) = eval.with_call_stack(f, None, |e| {
        let err = EvalError::new(EvalErrorKind::NoLoaderConfigured);
        (e, Err(err))
    });
    assert!(r.is_err());
    assert_eq!(eval.call_stack.frames.len(), 0);
}

#[test]
fn failure_carries_the_stack_that_failed() {
    let mut eval = fresh();
    let f = eval.alloc_value(ValueData::Function("outer".to_string()));
    let g = eval.alloc_value(ValueData::Function("inner".to_string()));
    let span = Span::new(3, 9);
    let (eval, r): (Evaluator, Result<u32, EvalError>) =
        eval.with_call_stack(f, None, move |e| {
            e.with_call_stack(g, Some(span), move |e2| {
                (e2, Err(EvalError::new(EvalErrorKind::NoLoaderConfigured)))
            })
        });
    assert_eq!(eval.call_stack.frames.len(), 0);
    let err = r.unwrap_err();
    let frames = err.frames.expect("a failure crossing a frame pop carries the stack");
    // Captured before the pop, innermost first: inner, then outer.
    assert_eq!(frames.len(), 2);
    assert_eq!(frames[0].name, "inner");
    assert_eq!(frames[1].name, "outer");
    assert!(frames[1].location.is_none());
}

fn recurse(e: Evaluator, f: Value) -> (Evaluator, Result<u32, EvalError>) {
    e.with_call_stack(f, None, move |e2| recurse(e2, f))
}

#[test]
fn deep_recursion_overflows_and_unwinds() {
    let mut eval = fresh();
    let f = eval.alloc_value(ValueData::Function("loop_forever".to_string()));
    let (eval, r) = recurse(eval, f);
    let err = r.unwrap_err();
    assert!(matches!(err.kind, EvalErrorKind::StackOverflow));
    assert_eq!(eval.call_stack.frames.len(), 0);
}

#[test]
fn function_context_restores_after_return_and_failure() {
    let mut eval = fresh();
    // Bind the outer codemap first, as the dispatch layer would.
    let (eval2, ()) = eval.with_function_context(None, Codemap::new("outer.star".to_string()), |e| {
        // Inside the outer context the outer codemap is active.
        assert_eq!(e.codemap.as_ref().unwrap().filename, "outer.star");
        let (e, r): (Evaluator, Result<u32, EvalError>) =
            e.with_function_context(None, Codemap::new("inner.star".to_string()), |e2| {
                assert_eq!(e2.codemap.as_ref().unwrap().filename, "inner.star");
                (e2, Err(EvalError::new(EvalErrorKind::NoLoaderConfigured)))
            });
        // Restored to the outer codemap even though the inner body failed.
        assert!(r.is_err());
        assert_eq!(e.codemap.as_ref().unwrap().filename, "outer.star");
        (e, ())
    });
    eval = eval2;
    // Restored to "not yet bound" after the outermost context exits.
    assert!(eval.codemap.is_none());
    assert!(eval.module_variables.is_none());
}

#[test]
fn function_context_switches_module_override() {
    // A loaded module exports `answer = 42`; a function defined there
    // resolves module slots through the frozen view.
    let mut loaded = Module::new();
    let slot = loaded.add_variable("answer".to_string());
    let mut loaded_eval = Evaluator::new(loaded, Globals::new());
    let v = loaded_eval.alloc_value(ValueData::Int(42));
    loaded_eval.set_slot_module(slot, v);
    let frozen = loaded_eval.module().freeze();

    let keep = frozen.duplicate();
    let mut eval = fresh();
    let cm = Codemap::new("loaded.star".to_string());
    let (eval, got) = eval.with_function_context(Some(frozen), cm, |e| {
        let got = e.get_slot_module(slot).expect("frozen slot is assigned");
        (e, got)
    });
    // The value came back frozen-origin, resolved through the loaded
    // module's frozen heap.
    match got {
        Value::Frozen(i) => match keep.heap.get(i) {
            Some(ValueData::Int(42)) => {}
            other => panic!("expected the exported 42, got {:?}", other),
        },
        other => panic!("expected a frozen-origin value, got {:?}", other),
    }
    assert!(eval.module_variables.is_none());
    // The bound module's own slot table was untouched (it has no slots).
    assert!(eval.get_slot_module(slot).is_err());
}

#[test]
fn call_result_is_forty_two() {
    // A program defines `def f(x): return x + 1` and calls `f(41)`.
    let mut module = Module::new();
    let fslot = module.add_variable("f".to_string());
    let mut eval = Evaluator::new(module, Globals::new());
    let f = eval.alloc_value(ValueData::Function("f".to_string()));
    eval.set_slot_module(fslot, f);
    let arg = eval.alloc_value(ValueData::Int(41));
    let span = Span::new(0, 5);
    let (eval, result): (Evaluator, Result<Value, EvalError>) =
        eval.with_call_stack(f, Some(span), move |e| {
            e.with_function_context(None, Codemap::new("test.star".to_string()), move |mut e2| {
                e2.push_local_frame(1);
                e2.set_slot_local(0, arg);
                let x = match e2.get_slot_local(0, "x") {
                    Ok(x) => x,
                    Err(err) => {
                        e2.pop_local_frame();
                        return (e2, Err(err));
                    }
                };
                let xv = match data_of(&e2, x) {
                    ValueData::Int(i) => i,
                    other => panic!("expected an int argument, got {:?}", other),
                };
                let sum = e2.alloc_value(ValueData::Int(xv + 1));
                e2.pop_local_frame();
                (e2, Ok(sum))
            })
        });
    let sum = result.expect("the call succeeds");
    assert!(eval.call_stack.frames.is_empty());
    assert!(matches!(data_of(&eval, sum), ValueData::Int(42)));
}

#[test]
fn gc_trigger_and_watermark() {
    let mut eval = fresh();
    assert!(!eval.gc_requested());
    eval.trigger_gc();
    assert!(eval.gc_requested());
    eval.finish_gc(16);
    assert!(!eval.gc_requested());
}

#[test]
fn profiling_disables_gc_observably() {
    let mut eval = fresh();
    eval.enable_profile();
    assert!(eval.disable_gc);
    // Triggering afterwards must not permit a collection.
    eval.trigger_gc();
    assert!(!eval.gc_requested());
}

#[test]
fn disable_gc_blocks_trigger() {
    let mut eval = fresh();
    eval.disable_gc();
    eval.trigger_gc();
    assert!(!eval.gc_requested());
}

#[test]
fn loader_is_a_deferred_failure() {
    let mut eval = fresh();
    match eval.require_loader() {
        Err(e) => assert!(matches!(e.kind, EvalErrorKind::NoLoaderConfigured)),
        Ok(_) => panic!("no loader was configured"),
    }
    let mut loader = ModuleLoader::new();
    loader.add("lib.star".to_string(), Module::new().freeze());
    eval.set_loader(loader);
    let loader = eval.require_loader().expect("loader configured");
    assert!(loader.resolve(&"lib.star".to_string()).is_some());
    assert!(loader.resolve(&"other.star".to_string()).is_none());
}

#[test]
fn walk_roots_enumerates_every_root() {
    let mut module = Module::new();
    let a = module.add_variable("a".to_string());
    let _b = module.add_variable("b".to_string());
    let mut eval = Evaluator::new(module, Globals::new());
    let va = eval.alloc_value(ValueData::Int(1));
    eval.set_slot_module(a, va);
    eval.push_local_frame(2);
    let vl = eval.alloc_value(ValueData::Int(2));
    eval.set_slot_local(1, vl);
    let f = eval.alloc_value(ValueData::Function("f".to_string()));
    let (eval, roots) = eval.with_call_stack(f, None, |e| {
        let roots = e.walk_roots();
        (e, Ok::<Vec<Value>, EvalError>(roots))
    });
    let roots = roots.unwrap();
    // Module slot a, local slot 1, and the active frame's function; the
    // unassigned slots contribute nothing.
    assert_eq!(roots, vec![va, vl, f]);
    assert_eq!(eval.walk_roots(), vec![va, vl]);
}

#[test]
fn set_module_variable_at_some_point_binds() {
    let mut eval = fresh();
    let v = eval.alloc_value(ValueData::Int(9));
    eval.set_module_variable_at_some_point("y".to_string(), v).unwrap();
    let slot = 0;
    assert_eq!(eval.get_slot_module(slot).unwrap(), v);
    let w = eval.alloc_value(ValueData::Int(10));
    eval.set_module_variable_at_some_point("y".to_string(), w).unwrap();
    assert_eq!(eval.get_slot_module(slot).unwrap(), w);
    assert_eq!(eval.module().slots.len(), 1);
}

#[test]
fn file_span_resolves_against_current_codemap() {
    let eval = fresh();
    let span = Span::new(2, 7);
    let fs = eval.file_span(span);
    assert_eq!(fs.file, "");
    let (eval, fs) = {
        let mut e = eval;
        e.with_function_context(None, Codemap::new("m.star".to_string()), move |e2| {
            let fs = e2.file_span(span);
            (e2, fs)
        })
    };
    assert_eq!(fs.file, "m.star");
    assert_eq!(fs.span, span);
    assert_eq!(eval.file_span(span).file, "");
}

#[test]
fn top_location_reports_innermost_spanned_call() {
    let mut eval = fresh();
    let f = eval.alloc_value(ValueData::Function("f".to_string()));
    assert!(eval.call_stack_top_location().is_none());
    let span = Span::new(4, 8);
    let (_eval, loc) = {
        let e = eval;
        e.with_function_context(None, Codemap::new("top.star".to_string()), move |e2| {
            e2.with_call_stack(f, Some(span), |e3| {
                let loc = e3.call_stack_top_location();
                (e3, Ok::<_, EvalError>(loc))
            })
        })
    };
    let loc = loc.unwrap().expect("a spanned call has a location");
    assert_eq!(loc.file, "top.star");
    assert_eq!(loc.span, span);
}

#[test]
fn error_message_texts() {
    let e = EvalError::new(EvalErrorKind::ProfilingNotEnabled);
    assert_eq!(
        e.message(),
        "Can't call `write_profile` unless you first call `enable_profile`."
    );
    let e = EvalError::new(EvalErrorKind::StmtProfilingNotEnabled);
    assert_eq!(
        e.message(),
        "Can't call `write_stmt_profile` unless you first call `enable_stmt_profile`."
    );
    let e = EvalError::new(EvalErrorKind::StackOverflow);
    assert_eq!(e.message(), "Starlark call stack overflow");
}
