use starlark_runtime::codemap::{Codemap, Span};
use starlark_runtime::errors::EvalErrorKind;
use starlark_runtime::evaluator::Evaluator;
use starlark_runtime::module::{Globals, Module};
use starlark_runtime::stmt_profile::StmtProfile;

fn fresh() -> Evaluator {
    Evaluator::new(Module::new(), Globals::new())
}

#[test]
fn stmt_profile_request_before_enable_fails() {
    let eval = fresh();
    match eval.write_stmt_profile() {
        Err(e) => assert!(matches!(e.kind, EvalErrorKind::StmtProfilingNotEnabled)),
        Ok(s) => panic!("statement profiling was never enabled, got: {}", s),
    }
}

#[test]
fn stmt_profile_charges_previous_statement() {
    let mut p = StmtProfile::new();
    p.enable();
    p.set_codemap(Codemap::new("m.star".to_string()));
    let a = Span::new(0, 5);
    let b = Span::new(6, 9);
    p.before_stmt(a, 100);
    p.before_stmt(b, 250);
    p.before_stmt(a, 400);
    // a was charged once (100..250), b once (250..400); the final run of
    // a is still pending.
    assert_eq!(p.rows.len(), 2);
    assert_eq!(p.rows[0].span, a);
    assert_eq!(p.rows[0].count, 1);
    assert_eq!(p.rows[0].time, 150);
    assert_eq!(p.rows[1].span, b);
    assert_eq!(p.rows[1].count, 1);
    assert_eq!(p.rows[1].time, 150);
    let csv = p.gen().unwrap();
    assert_eq!(
        csv,
        "file,span_begin,span_end,calls,time_ns\nm.star,0,5,1,150\nm.star,6,9,1,150\n"
    );
}

#[test]
fn stmt_profile_accumulates_repeats() {
    let mut p = StmtProfile::new();
    p.enable();
    let a = Span::new(0, 3);
    p.before_stmt(a, 10);
    p.before_stmt(a, 25);
    p.before_stmt(a, 45);
    assert_eq!(p.rows.len(), 1);
    assert_eq!(p.rows[0].count, 2);
    assert_eq!(p.rows[0].time, 35);
}

#[test]
fn stmt_profile_is_a_no_op_when_disabled() {
    let mut p = StmtProfile::new();
    p.before_stmt(Span::new(0, 1), 5);
    assert!(p.rows.is_empty());
    assert!(p.last.is_none());
    assert!(p.gen().is_none());
}

#[test]
fn evaluator_stmt_profile_round_trip() {
    let mut eval = fresh();
    eval.enable_stmt_profile();
    let (mut eval, ()) =
        eval.with_function_context(None, Codemap::new("prog.star".to_string()), |mut e| {
            e.before_stmt(Span::new(0, 4));
            e.before_stmt(Span::new(5, 9));
            (e, ())
        });
    eval.before_stmt(Span::new(10, 12));
    let csv = eval.write_stmt_profile().unwrap();
    assert!(csv.starts_with("file,span_begin,span_end,calls,time_ns\n"));
    // The first two statements have been charged; each ran once.
    assert_eq!(eval.stmt_profile.rows.len(), 2);
    assert_eq!(eval.stmt_profile.rows[0].file, "prog.star");
    assert_eq!(eval.stmt_profile.rows[0].count, 1);
    assert_eq!(eval.stmt_profile.rows[1].count, 1);
}

#[test]
fn stmt_profile_keys_by_file_and_span() {
    let mut p = StmtProfile::new();
    p.enable();
    let a = Span::new(0, 3);
    p.set_codemap(Codemap::new("one.star".to_string()));
    p.before_stmt(a, 10);
    p.set_codemap(Codemap::new("two.star".to_string()));
    p.before_stmt(a, 30);
    p.before_stmt(a, 60);
    // The same span in different files is two distinct rows.
    assert_eq!(p.rows.len(), 2);
    assert_eq!(p.rows[0].file, "one.star");
    assert_eq!(p.rows[0].time, 20);
    assert_eq!(p.rows[1].file, "two.star");
    assert_eq!(p.rows[1].time, 30);
}
