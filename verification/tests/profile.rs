use starlark_runtime::codemap::{Codemap, Span};
use starlark_runtime::errors::{EvalError, EvalErrorKind};
use starlark_runtime::evaluator::Evaluator;
use starlark_runtime::module::{Globals, Module};
use starlark_runtime::profile::{collect_funcs, collect_paths, HeapProfile, HeapProfileFormat};
use starlark_runtime::render::u64_to_string;
use starlark_runtime::values::{Value, ValueData};

fn fresh() -> Evaluator {
    Evaluator::new(Module::new(), Globals::new())
}

#[test]
fn profile_request_before_enable_fails() {
    let eval = fresh();
    match eval.write_profile(HeapProfileFormat::Summary) {
        Err(e) => assert!(matches!(e.kind, EvalErrorKind::ProfilingNotEnabled)),
        Ok(s) => panic!("profiling was never enabled, got: {}", s),
    }
    match eval.write_profile(HeapProfileFormat::FlameGraph) {
        Err(e) => assert!(matches!(e.kind, EvalErrorKind::ProfilingNotEnabled)),
        Ok(s) => panic!("profiling was never enabled, got: {}", s),
    }
}

#[test]
fn summary_has_one_row_after_one_call() {
    let mut eval = fresh();
    eval.enable_profile();
    let f = eval.alloc_value(ValueData::Function("f".to_string()));
    let (eval, r) = eval.with_call_stack(f, None, |e| (e, Ok(0u32)));
    r.unwrap();
    let rows = collect_funcs(eval.heap());
    assert_eq!(rows.len(), 1);
    assert_eq!(rows[0].function, f);
    assert_eq!(rows[0].count, 1);
    let summary = eval.write_profile(HeapProfileFormat::Summary).unwrap();
    let header = "function,calls,time_incl_ns,time_excl_ns,bytes_incl,bytes_excl\n";
    assert!(summary.starts_with(header));
    assert!(summary[header.len()..].starts_with("f,1,"));
    assert!(summary.ends_with(",0,0\n"));
}

#[test]
fn sibling_calls_collapse_into_one_flame_line() {
    let mut eval = fresh();
    eval.enable_profile();
    let f = eval.alloc_value(ValueData::Function("f".to_string()));
    let g = eval.alloc_value(ValueData::Function("g".to_string()));
    let (eval, r) = eval.with_call_stack(f, None, move |e| {
        let (e, r1): (Evaluator, Result<u32, EvalError>) =
            e.with_call_stack(g, None, |e2| (e2, Ok(0u32)));
        r1.unwrap();
        let (e, r2): (Evaluator, Result<u32, EvalError>) =
            e.with_call_stack(g, None, |e2| (e2, Ok(0u32)));
        r2.unwrap();
        (e, Ok(0u32))
    });
    r.unwrap();
    let flame = eval.write_profile(HeapProfileFormat::FlameGraph).unwrap();
    assert_eq!(flame, "f;g 2\nf 1\n");
}

#[test]
fn allocation_bytes_attribute_to_the_open_call() {
    let mut eval = fresh();
    eval.enable_profile();
    let f = eval.alloc_value(ValueData::Function("f".to_string()));
    let g = eval.alloc_value(ValueData::Function("g".to_string()));
    let (eval, r) = eval.with_call_stack(f, None, move |mut e| {
        // 16 bytes charged to f itself.
        let _a = e.alloc_value(ValueData::Int(1));
        let (e, r1): (Evaluator, Result<u32, EvalError>) =
            e.with_call_stack(g, None, |mut e2| {
                // 32 bytes charged to f;g.
                let _b = e2.alloc_value(ValueData::Str("hi".to_string()));
                (e2, Ok(0u32))
            });
        r1.unwrap();
        (e, Ok(0u32))
    });
    r.unwrap();
    let rows = collect_paths(eval.heap());
    assert_eq!(rows.len(), 2);
    // Completion order: f;g first, then f.
    assert_eq!(rows[0].path, vec![f, g]);
    assert_eq!(rows[0].bytes_incl, 32);
    assert_eq!(rows[0].bytes_excl, 32);
    assert_eq!(rows[1].path, vec![f]);
    assert_eq!(rows[1].bytes_incl, 48);
    assert_eq!(rows[1].bytes_excl, 16);
}

#[test]
fn recursive_paths_stay_distinct_lines() {
    let mut eval = fresh();
    eval.enable_profile();
    let f = eval.alloc_value(ValueData::Function("f".to_string()));
    let (eval, r) = eval.with_call_stack(f, None, move |e| {
        let (e, r1): (Evaluator, Result<u32, EvalError>) =
            e.with_call_stack(f, None, |e2| (e2, Ok(0u32)));
        r1.unwrap();
        (e, Ok(0u32))
    });
    r.unwrap();
    let flame = eval.write_profile(HeapProfileFormat::FlameGraph).unwrap();
    assert_eq!(flame, "f;f 1\nf 1\n");
}

#[test]
fn test_profiling() {
    // A module evaluates `def f(x): return (x * 5) + 3` and
    // `y = 8 * 9 + 2`, exporting f; the profile writers must produce
    // output on the module's heap without failing.
    let mut module = Module::new();
    let yslot = module.add_variable("y".to_string());
    let fslot = module.add_variable("f".to_string());
    let mut eval = Evaluator::new(module, Globals::new());
    eval.enable_profile();
    let (mut eval, f) =
        eval.with_function_context(None, Codemap::new("foo.bzl".to_string()), |mut e| {
            let y = e.alloc_value(ValueData::Int(8 * 9 + 2));
            e.set_slot_module(yslot, y);
            let f = e.alloc_value(ValueData::Function("f".to_string()));
            e.set_slot_module(fslot, f);
            (e, f)
        });
    assert_eq!(eval.get_slot_module(fslot).unwrap(), f);
    // First check module profiling works.
    HeapProfile::write_summarized_heap_profile(eval.heap());
    HeapProfile::write_flame_heap_profile(eval.heap());

    // Second check function profiling works: call f(100).
    let mut eval2 = fresh();
    eval2.enable_profile();
    let f2 = eval2.alloc_value(ValueData::Function("f".to_string()));
    let arg = eval2.alloc_value(ValueData::Int(100));
    let (eval2, r) = eval2.with_call_stack(f2, Some(Span::new(0, 1)), move |mut e| {
        e.push_local_frame(1);
        e.set_slot_local(0, arg);
        let x = match e.get_slot_local(0, "x") {
            Ok(Value::Mutable(i)) => match e.heap().get(i) {
                Some(ValueData::Int(v)) => *v,
                other => panic!("expected int, got {:?}", other),
            },
            other => panic!("expected the argument, got {:?}", other),
        };
        let result = e.alloc_value(ValueData::Int((x * 5) + 3));
        e.pop_local_frame();
        (e, Ok(result))
    });
    match r.unwrap() {
        Value::Mutable(i) => match eval2.heap().get(i) {
            Some(ValueData::Int(v)) => assert_eq!(*v, 503),
            other => panic!("expected int, got {:?}", other),
        },
        other => panic!("expected a heap value, got {:?}", other),
    }
    HeapProfile::write_summarized_heap_profile(eval2.heap());
    HeapProfile::write_flame_heap_profile(eval2.heap());

    // Finally, check a user can add values into the heap before/after.
    let mut eval3 = fresh();
    let f3 = eval3.alloc_value(ValueData::Function("f".to_string()));
    let before = eval3.alloc_value(ValueData::Str("Thing that goes before".to_string()));
    eval3.enable_profile();
    let (mut eval3, r) = eval3.with_call_stack(f3, None, |e| (e, Ok(0u32)));
    r.unwrap();
    let after = eval3.alloc_value(ValueData::Str("Thing that goes after".to_string()));
    assert_ne!(before, after);
    HeapProfile::write_summarized_heap_profile(eval3.heap());
    HeapProfile::write_flame_heap_profile(eval3.heap());
}

#[test]
fn gen_is_none_until_enabled() {
    let eval = fresh();
    let profile = HeapProfile::new();
    assert!(profile.gen(eval.heap(), HeapProfileFormat::Summary).is_none());
    let mut profile = profile;
    profile.enable();
    let out = profile.gen(eval.heap(), HeapProfileFormat::Summary).unwrap();
    assert_eq!(out, HeapProfile::gen_enabled(eval.heap(), HeapProfileFormat::Summary));
}

#[test]
fn empty_heap_renders_empty_outputs() {
    let eval = fresh();
    let summary = HeapProfile::write_summarized_heap_profile(eval.heap());
    assert_eq!(summary, "function,calls,time_incl_ns,time_excl_ns,bytes_incl,bytes_excl\n");
    let flame = HeapProfile::write_flame_heap_profile(eval.heap());
    assert_eq!(flame, "");
}

#[test]
fn decimal_rendering_is_exact() {
    assert_eq!(u64_to_string(0), "0");
    assert_eq!(u64_to_string(7), "7");
    assert_eq!(u64_to_string(42), "42");
    assert_eq!(u64_to_string(100000), "100000");
    assert_eq!(u64_to_string(u64::MAX), "18446744073709551615");
}

#[test]
fn marker_recording_respects_the_toggle() {
    let mut eval = fresh();
    let f = eval.alloc_value(ValueData::Function("f".to_string()));
    let records_before = eval.heap().records.len();
    // Disabled: the call boundary leaves no markers behind.
    let (mut eval, r) = eval.with_call_stack(f, None, |e| (e, Ok(0u32)));
    r.unwrap();
    assert_eq!(eval.heap().records.len(), records_before);
    // Enabled: one enter and one exit marker per call.
    eval.enable_profile();
    let (eval, r) = eval.with_call_stack(f, None, |e| (e, Ok(0u32)));
    r.unwrap();
    assert_eq!(eval.heap().records.len(), records_before + 2);
}

#[test]
fn stray_markers_do_not_break_aggregation() {
    // A host can hand the writers a heap whose marker stream is not
    // balanced; stray exits are ignored and unclosed calls are dropped.
    let mut eval = fresh();
    eval.enable_profile();
    let f = eval.alloc_value(ValueData::Function("f".to_string()));
    let profile = HeapProfile { enabled: true };
    profile.record_call_exit(&mut eval.module.heap);
    profile.record_call_enter(f, &mut eval.module.heap);
    let flame = HeapProfile::write_flame_heap_profile(eval.heap());
    assert_eq!(flame, "");
    let summary = HeapProfile::write_summarized_heap_profile(eval.heap());
    assert_eq!(summary, "function,calls,time_incl_ns,time_excl_ns,bytes_incl,bytes_excl\n");
}
