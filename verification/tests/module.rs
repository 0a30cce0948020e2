use starlark_runtime::evaluator::Evaluator;
use starlark_runtime::module::{Globals, Module};
use starlark_runtime::values::{FrozenValue, Value, ValueData};

#[test]
fn freeze_copies_reachable_values() {
    let mut module = Module::new();
    let a = module.add_variable("a".to_string());
    let b = module.add_variable("b".to_string());
    let mut eval = Evaluator::new(module, Globals::new());
    let v = eval.alloc_value(ValueData::Str("exported".to_string()));
    eval.set_slot_module(a, v);
    let frozen = eval.module().freeze();
    assert_eq!(frozen.names, vec!["a".to_string(), "b".to_string()]);
    let fa = frozen.get_slot(a).expect("assigned slot freezes assigned");
    match frozen.heap.get(fa.idx) {
        Some(ValueData::Str(s)) => assert_eq!(s, "exported"),
        other => panic!("expected the exported string, got {:?}", other),
    }
    assert!(frozen.get_slot(b).is_none());
    assert_eq!(frozen.get_slot_name(b).unwrap(), "b");
}

#[test]
fn freeze_keeps_already_frozen_values() {
    let mut module = Module::new();
    let a = module.add_variable("a".to_string());
    let fv = module.frozen_heap.allocate(ValueData::Int(3));
    module.set_slot(a, Value::new_frozen(fv));
    let frozen = module.freeze();
    let fa = frozen.get_slot(a).unwrap();
    assert!(matches!(frozen.heap.get(fa.idx), Some(ValueData::Int(3))));
}

#[test]
fn module_set_reuses_existing_name() {
    let mut module = Module::new();
    let x = module.add_variable("x".to_string());
    let mut eval = Evaluator::new(module, Globals::new());
    let v1 = eval.alloc_value(ValueData::Int(1));
    let v2 = eval.alloc_value(ValueData::Int(2));
    eval.set_module_variable_at_some_point("x".to_string(), v1).unwrap();
    assert_eq!(eval.get_slot_module(x).unwrap(), v1);
    eval.set_module_variable_at_some_point("x".to_string(), v2).unwrap();
    assert_eq!(eval.get_slot_module(x).unwrap(), v2);
    assert_eq!(eval.module().names.len(), 1);
}

#[test]
fn globals_resolve_first_match() {
    let mut globals = Globals::new();
    globals.add("len".to_string(), ValueData::Function("len".to_string()));
    globals.add("max".to_string(), ValueData::Function("max".to_string()));
    let g = globals.get(&"max".to_string()).expect("registered global");
    assert!(matches!(globals.heap.get(g.idx), Some(ValueData::Function(_))));
    assert!(globals.get(&"min".to_string()).is_none());
}

#[test]
fn frozen_view_duplicates_share_nothing_mutable() {
    let mut module = Module::new();
    let a = module.add_variable("a".to_string());
    let mut eval = Evaluator::new(module, Globals::new());
    let v = eval.alloc_value(ValueData::Int(11));
    eval.set_slot_module(a, v);
    let frozen = eval.module().freeze();
    let copy = frozen.duplicate();
    assert_eq!(copy.names, frozen.names);
    assert_eq!(copy.get_slot(a), frozen.get_slot(a));
}

#[test]
fn dangling_handles_read_as_nothing() {
    let module = Module::new();
    let eval = Evaluator::new(module, Globals::new());
    assert!(eval.heap().get(0).is_none());
    assert!(eval.frozen_heap().get(5).is_none());
    let _ = FrozenValue { idx: 5 };
}

#[test]
fn diagnostic_names_render_non_function_values() {
    let mut eval = Evaluator::new(Module::new(), Globals::new());
    let n = eval.alloc_value(ValueData::Int(-7));
    let (eval, frames) = eval.with_call_stack(n, None, |e| {
        let frames = e.call_stack();
        (e, Ok::<_, starlark_runtime::errors::EvalError>(frames))
    });
    let frames = frames.unwrap();
    assert_eq!(frames.len(), 1);
    assert_eq!(frames[0].name, "-7");
    assert!(eval.call_stack.frames.is_empty());
}
