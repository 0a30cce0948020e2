//! The call/heap profiler.
//!
//! While enabled it records call-enter/call-exit markers into the value
//! heap's linear record; after execution an aggregation pass walks those
//! markers to build a call tree keyed by the full call path, accumulating
//! per distinct path the invocation count, inclusive and exclusive elapsed
//! time, and inclusive and exclusive allocation bytes.
//!
//! Two renderings come from the same aggregated tree:
//! - a per-function summary in CSV form, one row per distinct function
//!   identity: `function,calls,time_incl_ns,time_excl_ns,bytes_incl,bytes_excl`;
//! - a folded-stack flame-graph encoding, one line per unique call path,
//!   `frame;frame;...;frame count`, siblings and repeats collapsed by
//!   identical path, weighted by the invocation count of that path.

use vstd::prelude::*;
use crate::clock::now_nanos;
use crate::render::{append_u64, dec_u64};
use crate::values::{data_size, value_display, Heap, HeapRecord, Value, ValueData};

verus! {

/// Which of the two output encodings to generate.
#[derive(Clone, Copy, PartialEq, Eq, Structural, Debug)]
pub enum HeapProfileFormat {
    Summary,
    FlameGraph,
}

/// An open call during the marker walk: the full call path, the enter
/// timestamp, bytes allocated while this call was innermost, and the
/// inclusive time and bytes of already-closed children.
pub struct OpenCall {
    pub path: Vec<Value>,
    pub enter_time: u64,
    pub own_bytes: u64,
    pub child_time: u64,
    pub child_bytes: u64,
}

/// A completed call: its full path and inclusive/exclusive totals.
pub struct CallEntry {
    pub path: Vec<Value>,
    pub time_incl: u64,
    pub time_excl: u64,
    pub bytes_incl: u64,
    pub bytes_excl: u64,
}

/// One aggregated row per distinct call path.
pub struct PathRow {
    pub path: Vec<Value>,
    pub count: u64,
    pub time_incl: u64,
    pub time_excl: u64,
    pub bytes_incl: u64,
    pub bytes_excl: u64,
}

/// One aggregated row per distinct function identity.
pub struct FuncRow {
    pub function: Value,
    pub count: u64,
    pub time_incl: u64,
    pub time_excl: u64,
    pub bytes_incl: u64,
    pub bytes_excl: u64,
}

pub type OpenModel = (Seq<Value>, u64, u64, u64, u64);

pub type DoneModel = (Seq<Value>, u64, u64, u64, u64);

pub type PathModel = (Seq<Value>, u64, u64, u64, u64, u64);

pub type FuncModel = (Value, u64, u64, u64, u64, u64);

impl OpenCall {
    pub open spec fn model(self) -> OpenModel {
        (self.path@, self.enter_time, self.own_bytes, self.child_time, self.child_bytes)
    }
}

impl CallEntry {
    pub open spec fn model(self) -> DoneModel {
        (self.path@, self.time_incl, self.time_excl, self.bytes_incl, self.bytes_excl)
    }
}

impl PathRow {
    pub open spec fn model(self) -> PathModel {
        (self.path@, self.count, self.time_incl, self.time_excl, self.bytes_incl, self.bytes_excl)
    }
}

impl FuncRow {
    pub open spec fn model(self) -> FuncModel {
        (
            self.function,
            self.count,
            self.time_incl,
            self.time_excl,
            self.bytes_incl,
            self.bytes_excl,
        )
    }
}

/// One step of the marker walk. Allocations are charged to the innermost
/// open call (and dropped when no call is open); a call-exit closes the
/// innermost open call, computes its inclusive/exclusive totals and adds
/// its inclusive totals to the parent's child accumulators. A call-exit
/// with no open call is ignored, so the walk is total on any record
/// stream.
pub open spec fn walk_step(
    stack: Seq<OpenModel>,
    done: Seq<DoneModel>,
    r: HeapRecord,
) -> (Seq<OpenModel>, Seq<DoneModel>) {
    match r {
        HeapRecord::Data(d) => {
            if stack.len() > 0 {
                let top = stack.last();
                (
                    stack.update(
                        stack.len() - 1,
                        (top.0, top.1, top.2.saturating_add(data_size(d)), top.3, top.4),
                    ),
                    done,
                )
            } else {
                (stack, done)
            }
        },
        HeapRecord::CallEnter { function, time } => {
            let parent_path = if stack.len() > 0 {
                stack.last().0
            } else {
                Seq::<Value>::empty()
            };
            (stack.push((parent_path.push(function), time, 0u64, 0u64, 0u64)), done)
        },
        HeapRecord::CallExit { time } => {
            if stack.len() == 0 {
                (stack, done)
            } else {
                let top = stack.last();
                let t_incl = time.saturating_sub(top.1);
                let t_excl = t_incl.saturating_sub(top.3);
                let b_incl = top.2.saturating_add(top.4);
                let entry = (top.0, t_incl, t_excl, b_incl, top.2);
                let stack2 = stack.drop_last();
                let stack3 = if stack2.len() > 0 {
                    let p = stack2.last();
                    stack2.update(
                        stack2.len() - 1,
                        (
                            p.0,
                            p.1,
                            p.2,
                            p.3.saturating_add(t_incl),
                            p.4.saturating_add(b_incl),
                        ),
                    )
                } else {
                    stack2
                };
                (stack3, done.push(entry))
            }
        },
    }
}

/// The marker walk over a whole record stream: the still-open calls and
/// the completed calls, in completion order. Calls still open at the end
/// of the stream are not reported.
pub open spec fn walk(rs: Seq<HeapRecord>) -> (Seq<OpenModel>, Seq<DoneModel>)
    decreases rs.len(),
{
    if rs.len() == 0 {
        (Seq::<OpenModel>::empty(), Seq::<DoneModel>::empty())
    } else {
        let prev = walk(rs.drop_last());
        walk_step(prev.0, prev.1, rs.last())
    }
}

/// `row` after absorbing one more completed call (all sums saturating).
pub open spec fn bump_path(row: PathModel, e: DoneModel) -> PathModel {
    (
        row.0,
        row.1.saturating_add(1),
        row.2.saturating_add(e.1),
        row.3.saturating_add(e.2),
        row.4.saturating_add(e.3),
        row.5.saturating_add(e.4),
    )
}

/// Fold one completed call into the per-path aggregation: the first row
/// with the same path absorbs it, else a fresh row is appended.
pub open spec fn upsert_path(acc: Seq<PathModel>, e: DoneModel) -> Seq<PathModel>
    decreases acc.len(),
{
    if acc.len() == 0 {
        seq![(e.0, 1u64, e.1, e.2, e.3, e.4)]
    } else if acc.first().0 == e.0 {
        seq![bump_path(acc.first(), e)] + acc.drop_first()
    } else {
        seq![acc.first()] + upsert_path(acc.drop_first(), e)
    }
}

/// The per-path aggregation of all completed calls, in first-seen order.
pub open spec fn aggregate_paths(done: Seq<DoneModel>) -> Seq<PathModel>
    decreases done.len(),
{
    if done.len() == 0 {
        Seq::<PathModel>::empty()
    } else {
        upsert_path(aggregate_paths(done.drop_last()), done.last())
    }
}

/// `row` after absorbing one more completed call of its function.
pub open spec fn bump_func(row: FuncModel, e: DoneModel) -> FuncModel {
    (
        row.0,
        row.1.saturating_add(1),
        row.2.saturating_add(e.1),
        row.3.saturating_add(e.2),
        row.4.saturating_add(e.3),
        row.5.saturating_add(e.4),
    )
}

/// Fold one completed call into the per-function aggregation, keyed by
/// the called value (the last element of the call path).
pub open spec fn upsert_func(acc: Seq<FuncModel>, e: DoneModel) -> Seq<FuncModel>
    decreases acc.len(),
{
    if acc.len() == 0 {
        seq![(e.0.last(), 1u64, e.1, e.2, e.3, e.4)]
    } else if acc.first().0 == e.0.last() {
        seq![bump_func(acc.first(), e)] + acc.drop_first()
    } else {
        seq![acc.first()] + upsert_func(acc.drop_first(), e)
    }
}

/// The per-function aggregation of all completed calls, in first-seen
/// order.
pub open spec fn aggregate_funcs(done: Seq<DoneModel>) -> Seq<FuncModel>
    decreases done.len(),
{
    if done.len() == 0 {
        Seq::<FuncModel>::empty()
    } else {
        upsert_func(aggregate_funcs(done.drop_last()), done.last())
    }
}

proof fn lemma_upsert_path_found(acc: Seq<PathModel>, e: DoneModel, j: int)
    requires
        0 <= j < acc.len(),
        acc[j].0 == e.0,
        forall|k: int| 0 <= k < j ==> acc[k].0 != e.0,
    ensures
        upsert_path(acc, e) =~= acc.update(j, bump_path(acc[j], e)),
    decreases acc.len(),
{
    if j == 0 {
        assert(upsert_path(acc, e) =~= acc.update(0, bump_path(acc[0], e)));
    } else {
        lemma_upsert_path_found(acc.drop_first(), e, j - 1);
        assert(upsert_path(acc, e) =~= acc.update(j, bump_path(acc[j], e)));
    }
}

proof fn lemma_upsert_path_absent(acc: Seq<PathModel>, e: DoneModel)
    requires
        forall|k: int| 0 <= k < acc.len() ==> acc[k].0 != e.0,
    ensures
        upsert_path(acc, e) =~= acc.push((e.0, 1u64, e.1, e.2, e.3, e.4)),
    decreases acc.len(),
{
    if acc.len() > 0 {
        lemma_upsert_path_absent(acc.drop_first(), e);
        assert(upsert_path(acc, e) =~= acc.push((e.0, 1u64, e.1, e.2, e.3, e.4)));
    }
}

proof fn lemma_upsert_func_found(acc: Seq<FuncModel>, e: DoneModel, j: int)
    requires
        0 <= j < acc.len(),
        acc[j].0 == e.0.last(),
        forall|k: int| 0 <= k < j ==> acc[k].0 != e.0.last(),
    ensures
        upsert_func(acc, e) =~= acc.update(j, bump_func(acc[j], e)),
    decreases acc.len(),
{
    if j == 0 {
        assert(upsert_func(acc, e) =~= acc.update(0, bump_func(acc[0], e)));
    } else {
        lemma_upsert_func_found(acc.drop_first(), e, j - 1);
        assert(upsert_func(acc, e) =~= acc.update(j, bump_func(acc[j], e)));
    }
}

proof fn lemma_upsert_func_absent(acc: Seq<FuncModel>, e: DoneModel)
    requires
        forall|k: int| 0 <= k < acc.len() ==> acc[k].0 != e.0.last(),
    ensures
        upsert_func(acc, e) =~= acc.push((e.0.last(), 1u64, e.1, e.2, e.3, e.4)),
    decreases acc.len(),
{
    if acc.len() > 0 {
        lemma_upsert_func_absent(acc.drop_first(), e);
        assert(upsert_func(acc, e) =~= acc.push((e.0.last(), 1u64, e.1, e.2, e.3, e.4)));
    }
}

/// The models of a vector of open calls.
pub open spec fn open_models(s: Seq<OpenCall>) -> Seq<OpenModel> {
    s.map_values(|o: OpenCall| o.model())
}

/// The models of a vector of completed calls.
pub open spec fn done_models(s: Seq<CallEntry>) -> Seq<DoneModel> {
    s.map_values(|e: CallEntry| e.model())
}

/// The models of a vector of per-path rows.
pub open spec fn path_models(s: Seq<PathRow>) -> Seq<PathModel> {
    s.map_values(|r: PathRow| r.model())
}

/// The models of a vector of per-function rows.
pub open spec fn func_models(s: Seq<FuncRow>) -> Seq<FuncModel> {
    s.map_values(|r: FuncRow| r.model())
}

/// Compare two paths by contents.
fn path_eq(a: &Vec<Value>, b: &Vec<Value>) -> (r: bool)
    ensures
        r == (a@ == b@),
{
    if a.len() != b.len() {
        proof {
            assert(a@ != b@);
        }
        return false;
    }
    let mut i: usize = 0;
    while i < a.len()
        invariant
            a@.len() == b@.len(),
            i <= a@.len(),
            forall|k: int| 0 <= k < i ==> a@[k] == b@[k],
        decreases a@.len() - i,
    {
        if a[i] != b[i] {
            proof {
                assert(a@ != b@);
            }
            return false;
        }
        i = i + 1;
    }
    proof {
        assert(a@ =~= b@);
    }
    true
}

/// Copy a path.
fn path_dup(a: &Vec<Value>) -> (r: Vec<Value>)
    ensures
        r@ == a@,
{
    let mut r: Vec<Value> = Vec::new();
    let mut i: usize = 0;
    while i < a.len()
        invariant
            i <= a@.len(),
            r@ =~= a@.subrange(0, i as int),
        decreases a@.len() - i,
    {
        r.push(a[i]);
        proof {
            assert(r@ =~= a@.subrange(0, i + 1));
        }
        i = i + 1;
    }
    proof {
        assert(a@.subrange(0, a@.len() as int) =~= a@);
    }
    r
}

/// Walk the heap's linear record and return every completed call, in
/// completion order.
pub fn collect_calls(heap: &Heap) -> (done: Vec<CallEntry>)
    ensures
        done_models(done@) == walk(heap.records@).1,
{
    let mut stack: Vec<OpenCall> = Vec::new();
    let mut done: Vec<CallEntry> = Vec::new();
    let n = heap.records.len();
    let mut i: usize = 0;
    proof {
        assert(heap.records@.take(0) =~= Seq::<HeapRecord>::empty());
        assert(open_models(stack@) =~= walk(heap.records@.take(0)).0);
        assert(done_models(done@) =~= walk(heap.records@.take(0)).1);
    }
    while i < n
        invariant
            n == heap.records@.len(),
            i <= n,
            open_models(stack@) == walk(heap.records@.take(i as int)).0,
            done_models(done@) == walk(heap.records@.take(i as int)).1,
        decreases n - i,
    {
        let ghost pre_stack = stack@;
        let ghost pre_done = done@;
        let r = &heap.records[i];
        match r {
            HeapRecord::Data(d) => {
                if stack.len() > 0 {
                    let mut top = stack.pop().unwrap();
                    let sz: u64 = match d {
                        ValueData::Int(_) => 16,
                        ValueData::Str(_) => 32,
                        ValueData::Function(_) => 32,
                    };
                    top.own_bytes = top.own_bytes.saturating_add(sz);
                    stack.push(top);
                    proof {
                        assert(open_models(stack@) =~= walk_step(
                            open_models(pre_stack),
                            done_models(pre_done),
                            heap.records@[i as int],
                        ).0);
                    }
                }
            },
            HeapRecord::CallEnter { function, time } => {
                let parent_path: Vec<Value> = if stack.len() > 0 {
                    path_dup(&stack[stack.len() - 1].path)
                } else {
                    Vec::new()
                };
                let mut path = parent_path;
                path.push(*function);
                stack.push(
                    OpenCall {
                        path,
                        enter_time: *time,
                        own_bytes: 0,
                        child_time: 0,
                        child_bytes: 0,
                    },
                );
                proof {
                    assert(open_models(stack@) =~= walk_step(
                        open_models(pre_stack),
                        done_models(pre_done),
                        heap.records@[i as int],
                    ).0);
                }
            },
            HeapRecord::CallExit { time } => {
                if stack.len() > 0 {
                    let top = stack.pop().unwrap();
                    let t_incl = time.saturating_sub(top.enter_time);
                    let t_excl = t_incl.saturating_sub(top.child_time);
                    let b_incl = top.own_bytes.saturating_add(top.child_bytes);
                    if stack.len() > 0 {
                        let mut parent = stack.pop().unwrap();
                        parent.child_time = parent.child_time.saturating_add(t_incl);
                        parent.child_bytes = parent.child_bytes.saturating_add(b_incl);
                        stack.push(parent);
                    }
                    done.push(
                        CallEntry {
                            path: top.path,
                            time_incl: t_incl,
                            time_excl: t_excl,
                            bytes_incl: b_incl,
                            bytes_excl: top.own_bytes,
                        },
                    );
                    proof {
                        assert(open_models(stack@) =~= walk_step(
                            open_models(pre_stack),
                            done_models(pre_done),
                            heap.records@[i as int],
                        ).0);
                        assert(done_models(done@) =~= walk_step(
                            open_models(pre_stack),
                            done_models(pre_done),
                            heap.records@[i as int],
                        ).1);
                    }
                }
            },
        }
        proof {
            assert(heap.records@.take(i + 1).drop_last() =~= heap.records@.take(i as int));
            assert(heap.records@.take(i + 1).last() == heap.records@[i as int]);
            assert(open_models(stack@) =~= walk(heap.records@.take(i + 1)).0);
            assert(done_models(done@) =~= walk(heap.records@.take(i + 1)).1);
        }
        i = i + 1;
    }
    proof {
        assert(heap.records@.take(n as int) =~= heap.records@);
    }
    done
}

/// Aggregate completed calls into one row per distinct call path, in
/// first-seen order.
pub fn collect_paths(heap: &Heap) -> (rows: Vec<PathRow>)
    ensures
        path_models(rows@) == aggregate_paths(walk(heap.records@).1),
{
    let done = collect_calls(heap);
    let mut rows: Vec<PathRow> = Vec::new();
    let mut i: usize = 0;
    proof {
        assert(done_models(done@).take(0) =~= Seq::<DoneModel>::empty());
        assert(path_models(rows@) =~= aggregate_paths(done_models(done@).take(0)));
    }
    while i < done.len()
        invariant
            i <= done@.len(),
            done_models(done@).len() == done@.len(),
            path_models(rows@) == aggregate_paths(done_models(done@).take(i as int)),
        decreases done@.len() - i,
    {
        let e = &done[i];
        let ghost em = e.model();
        let ghost pre = path_models(rows@);
        let mut j: usize = 0;
        let mut found = false;
        while j < rows.len() && !found
            invariant
                j <= rows@.len(),
                path_models(rows@) == pre,
                pre.len() == rows@.len(),
                !found ==> forall|k: int| 0 <= k < j ==> pre[k].0 != em.0,
                found ==> j < rows@.len() && pre[j as int].0 == em.0 && (forall|k: int|
                    0 <= k < j ==> pre[k].0 != em.0),
                em == e.model(),
            decreases rows@.len() - j + if found { 0int } else { 1int },
        {
            proof {
                assert(pre[j as int] == rows@[j as int].model());
            }
            if path_eq(&rows[j].path, &e.path) {
                found = true;
            } else {
                j = j + 1;
            }
        }
        if found {
            let mut row = rows.remove(j);
            row.count = row.count.saturating_add(1);
            row.time_incl = row.time_incl.saturating_add(e.time_incl);
            row.time_excl = row.time_excl.saturating_add(e.time_excl);
            row.bytes_incl = row.bytes_incl.saturating_add(e.bytes_incl);
            row.bytes_excl = row.bytes_excl.saturating_add(e.bytes_excl);
            rows.insert(j, row);
            proof {
                lemma_upsert_path_found(pre, em, j as int);
                assert(path_models(rows@) =~= upsert_path(pre, em));
            }
        } else {
            rows.push(
                PathRow {
                    path: path_dup(&e.path),
                    count: 1,
                    time_incl: e.time_incl,
                    time_excl: e.time_excl,
                    bytes_incl: e.bytes_incl,
                    bytes_excl: e.bytes_excl,
                },
            );
            proof {
                lemma_upsert_path_absent(pre, em);
                assert(path_models(rows@) =~= upsert_path(pre, em));
            }
        }
        proof {
            assert(done_models(done@).take(i + 1).drop_last() =~= done_models(done@).take(i as int));
            assert(done_models(done@).take(i + 1).last() == em);
            assert(path_models(rows@) =~= aggregate_paths(done_models(done@).take(i + 1)));
        }
        i = i + 1;
    }
    proof {
        assert(done_models(done@).take(done@.len() as int) =~= done_models(done@));
    }
    rows
}

/// Aggregate completed calls into one row per distinct function identity,
/// in first-seen order.
pub fn collect_funcs(heap: &Heap) -> (rows: Vec<FuncRow>)
    ensures
        func_models(rows@) == aggregate_funcs(walk(heap.records@).1),
{
    let done = collect_calls(heap);
    let mut rows: Vec<FuncRow> = Vec::new();
    let mut i: usize = 0;
    proof {
        assert(done_models(done@).take(0) =~= Seq::<DoneModel>::empty());
        assert(func_models(rows@) =~= aggregate_funcs(done_models(done@).take(0)));
    }
    while i < done.len()
        invariant
            i <= done@.len(),
            done_models(done@).len() == done@.len(),
            done_models(done@) == walk(heap.records@).1,
            func_models(rows@) == aggregate_funcs(done_models(done@).take(i as int)),
        decreases done@.len() - i,
    {
        let e = &done[i];
        let ghost em = e.model();
        let ghost pre = func_models(rows@);
        proof {
            lemma_done_paths_nonempty(heap.records@);
            assert(done_models(done@)[i as int] == done@[i as int].model());
            assert(em.0.len() > 0);
        }
        let key: Value = e.path[e.path.len() - 1];
        let mut j: usize = 0;
        let mut found = false;
        while j < rows.len() && !found
            invariant
                j <= rows@.len(),
                func_models(rows@) == pre,
                pre.len() == rows@.len(),
                key == em.0.last(),
                em == e.model(),
                !found ==> forall|k: int| 0 <= k < j ==> pre[k].0 != em.0.last(),
                found ==> j < rows@.len() && pre[j as int].0 == em.0.last() && (forall|k: int|
                    0 <= k < j ==> pre[k].0 != em.0.last()),
            decreases rows@.len() - j + if found { 0int } else { 1int },
        {
            proof {
                assert(pre[j as int] == rows@[j as int].model());
            }
            if rows[j].function == key {
                found = true;
            } else {
                j = j + 1;
            }
        }
        if found {
            let mut row = rows.remove(j);
            row.count = row.count.saturating_add(1);
            row.time_incl = row.time_incl.saturating_add(e.time_incl);
            row.time_excl = row.time_excl.saturating_add(e.time_excl);
            row.bytes_incl = row.bytes_incl.saturating_add(e.bytes_incl);
            row.bytes_excl = row.bytes_excl.saturating_add(e.bytes_excl);
            rows.insert(j, row);
            proof {
                lemma_upsert_func_found(pre, em, j as int);
                assert(func_models(rows@) =~= upsert_func(pre, em));
            }
        } else {
            rows.push(
                FuncRow {
                    function: key,
                    count: 1,
                    time_incl: e.time_incl,
                    time_excl: e.time_excl,
                    bytes_incl: e.bytes_incl,
                    bytes_excl: e.bytes_excl,
                },
            );
            proof {
                lemma_upsert_func_absent(pre, em);
                assert(func_models(rows@) =~= upsert_func(pre, em));
            }
        }
        proof {
            assert(done_models(done@).take(i + 1).drop_last() =~= done_models(done@).take(i as int));
            assert(done_models(done@).take(i + 1).last() == em);
            assert(func_models(rows@) =~= aggregate_funcs(done_models(done@).take(i + 1)));
        }
        i = i + 1;
    }
    proof {
        assert(done_models(done@).take(done@.len() as int) =~= done_models(done@));
    }
    rows
}

/// Every path on the walk stack is non-empty, and so is the path of every
/// completed call.
pub proof fn lemma_done_paths_nonempty(rs: Seq<HeapRecord>)
    ensures
        forall|k: int| 0 <= k < walk(rs).0.len() ==> (#[trigger] walk(rs).0[k]).0.len() > 0,
        forall|k: int| 0 <= k < walk(rs).1.len() ==> (#[trigger] walk(rs).1[k]).0.len() > 0,
    decreases rs.len(),
{
    if rs.len() > 0 {
        lemma_done_paths_nonempty(rs.drop_last());
        let prev = walk(rs.drop_last());
        let cur = walk(rs);
        assert(cur == walk_step(prev.0, prev.1, rs.last()));
        match rs.last() {
            HeapRecord::Data(_) => {
                assert forall|k: int| 0 <= k < cur.0.len() implies (#[trigger] cur.0[k]).0.len()
                    > 0 by {
                    assert(cur.0[k].0 == prev.0[k].0);
                }
            },
            HeapRecord::CallEnter { function, time } => {
                assert forall|k: int| 0 <= k < cur.0.len() implies (#[trigger] cur.0[k]).0.len()
                    > 0 by {
                    if k < prev.0.len() {
                        assert(cur.0[k] == prev.0[k]);
                    }
                }
            },
            HeapRecord::CallExit { time } => {
                if prev.0.len() > 0 {
                    assert forall|k: int| 0 <= k < cur.0.len() implies (#[trigger] cur.0[k]).0.len() > 0 by {
                        assert(cur.0[k].0 == prev.0.drop_last()[k].0);
                    }
                    assert forall|k: int| 0 <= k < cur.1.len() implies (#[trigger] cur.1[k]).0.len() > 0 by {
                        if k < prev.1.len() {
                            assert(cur.1[k] == prev.1[k]);
                        } else {
                            assert(cur.1[k].0 == prev.0.last().0);
                        }
                    }
                }
            },
        }
    }
}

/// The printable identity of `v` as the profiler shows it: resolved
/// against the mutable heap only (a frozen handle shows as `<unknown>`).
pub open spec fn heap_display(records: Seq<HeapRecord>, v: Value) -> Seq<char> {
    value_display(records, Seq::<ValueData>::empty(), v)
}

/// A call path joined with `;` separators.
pub open spec fn joined_path(records: Seq<HeapRecord>, path: Seq<Value>) -> Seq<char>
    decreases path.len(),
{
    if path.len() == 0 {
        Seq::<char>::empty()
    } else if path.len() == 1 {
        heap_display(records, path.last())
    } else {
        joined_path(records, path.drop_last()) + ";"@ + heap_display(records, path.last())
    }
}

/// One folded-stack line: the joined path, a space, and the invocation
/// count of that exact path as its weight.
pub open spec fn flame_line(records: Seq<HeapRecord>, row: PathModel) -> Seq<char> {
    joined_path(records, row.0) + " "@ + dec_u64(row.1 as nat) + "\n"@
}

/// The folded-stack flame-graph encoding: one line per unique call path.
pub open spec fn flame_output(records: Seq<HeapRecord>, rows: Seq<PathModel>) -> Seq<char>
    decreases rows.len(),
{
    if rows.len() == 0 {
        Seq::<char>::empty()
    } else {
        flame_output(records, rows.drop_last()) + flame_line(records, rows.last())
    }
}

/// The header row of the per-function summary.
pub open spec fn summary_header() -> Seq<char> {
    "function,calls,time_incl_ns,time_excl_ns,bytes_incl,bytes_excl\n"@
}

/// One summary row: function identity, invocation count, inclusive and
/// exclusive time, inclusive and exclusive allocation bytes.
pub open spec fn summary_line(records: Seq<HeapRecord>, row: FuncModel) -> Seq<char> {
    heap_display(records, row.0) + ","@ + dec_u64(row.1 as nat) + ","@ + dec_u64(row.2 as nat)
        + ","@ + dec_u64(row.3 as nat) + ","@ + dec_u64(row.4 as nat) + ","@ + dec_u64(
        row.5 as nat,
    ) + "\n"@
}

/// The whole tabular summary: header plus one row per function.
pub open spec fn summary_output(records: Seq<HeapRecord>, rows: Seq<FuncModel>) -> Seq<char>
    decreases rows.len(),
{
    if rows.len() == 0 {
        summary_header()
    } else {
        summary_output(records, rows.drop_last()) + summary_line(records, rows.last())
    }
}

/// Append the profiler's rendering of `v` to `out`.
fn append_value_name(out: &mut String, heap: &Heap, v: Value)
    ensures
        final(out)@ =~= old(out)@ + heap_display(heap.records@, v),
{
    let empty = crate::values::FrozenHeap::new();
    let name = crate::values::display_name(heap, &empty, v);
    out.append(name.as_str());
}

/// The expected output of the profiler for `format` over a record stream.
pub open spec fn gen_output(records: Seq<HeapRecord>, format: HeapProfileFormat) -> Seq<char> {
    match format {
        HeapProfileFormat::Summary => summary_output(
            records,
            aggregate_funcs(walk(records).1),
        ),
        HeapProfileFormat::FlameGraph => flame_output(
            records,
            aggregate_paths(walk(records).1),
        ),
    }
}

/// The call/heap profiler attached to an evaluation: a toggle over the
/// marker-recording hooks of the call boundary.
#[derive(Clone, Copy, PartialEq, Eq, Structural, Debug)]
pub struct HeapProfile {
    pub enabled: bool,
}

impl HeapProfile {
    pub fn new() -> (p: HeapProfile)
        ensures
            !p.enabled,
    {
        HeapProfile { enabled: false }
    }

    pub fn enable(&mut self)
        ensures
            *final(self) == (HeapProfile { enabled: true }),
    {
        self.enabled = true;
    }

    /// Record a call-enter marker for `function`, timestamped with the
    /// wall clock, if the profiler is enabled; a no-op otherwise.
    pub fn record_call_enter(&self, function: Value, heap: &mut Heap)
        ensures
            !self.enabled ==> *final(heap) == *old(heap),
            self.enabled ==> (exists|t: u64|
                final(heap).records@ == old(heap).records@.push(
                    HeapRecord::CallEnter { function, time: t },
                )) && final(heap).allocated_bytes == old(heap).allocated_bytes,
    {
        if self.enabled {
            let t = now_nanos();
            heap.push_call_enter(function, t);
        }
    }

    /// Record a call-exit marker, timestamped with the wall clock, if the
    /// profiler is enabled; a no-op otherwise.
    pub fn record_call_exit(&self, heap: &mut Heap)
        ensures
            !self.enabled ==> *final(heap) == *old(heap),
            self.enabled ==> (exists|t: u64|
                final(heap).records@ == old(heap).records@.push(HeapRecord::CallExit { time: t }))
                && final(heap).allocated_bytes == old(heap).allocated_bytes,
    {
        if self.enabled {
            let t = now_nanos();
            heap.push_call_exit(t);
        }
    }

    /// Generate the requested encoding, or `None` while the profiler was
    /// never enabled.
    pub fn gen(&self, heap: &Heap, format: HeapProfileFormat) -> (r: Option<String>)
        ensures
            !self.enabled ==> r is None,
            self.enabled ==> (r matches Option::Some(s) && s@ == gen_output(
                heap.records@,
                format,
            )),
    {
        if !self.enabled {
            Option::None
        } else {
            Option::Some(Self::gen_enabled(heap, format))
        }
    }

    /// Generate the requested encoding from the heap's marker record.
    pub fn gen_enabled(heap: &Heap, format: HeapProfileFormat) -> (s: String)
        ensures
            s@ == gen_output(heap.records@, format),
    {
        match format {
            HeapProfileFormat::Summary => Self::write_summarized_heap_profile(heap),
            HeapProfileFormat::FlameGraph => Self::write_flame_heap_profile(heap),
        }
    }

    /// Render the folded-stack flame-graph encoding.
    pub fn write_flame_heap_profile(heap: &Heap) -> (s: String)
        ensures
            s@ == flame_output(heap.records@, aggregate_paths(walk(heap.records@).1)),
    {
        let rows = collect_paths(heap);
        let ghost models = path_models(rows@);
        let mut s = String::new();
        let mut i: usize = 0;
        proof {
            assert(models.take(0) =~= Seq::<PathModel>::empty());
            assert(s@ =~= flame_output(heap.records@, models.take(0)));
        }
        while i < rows.len()
            invariant
                i <= rows@.len(),
                models == path_models(rows@),
                models.len() == rows@.len(),
                s@ == flame_output(heap.records@, models.take(i as int)),
            decreases rows@.len() - i,
        {
            let row = &rows[i];
            proof {
                assert(models[i as int] == rows@[i as int].model());
            }
            let ghost line_start = s@;
            let mut j: usize = 0;
            while j < row.path.len()
                invariant
                    j <= row.path@.len(),
                    row == rows@[i as int],
                    s@ == line_start + joined_path(heap.records@, row.path@.take(j as int)),
                decreases row.path@.len() - j,
            {
                if j > 0 {
                    proof {
                        reveal_strlit(";");
                    }
                    s.append(";");
                }
                append_value_name(&mut s, heap, row.path[j]);
                proof {
                    assert(row.path@.take(j + 1).drop_last() =~= row.path@.take(j as int));
                    assert(row.path@.take(j + 1).last() == row.path@[j as int]);
                    assert(s@ =~= line_start + joined_path(heap.records@, row.path@.take(j + 1)));
                }
                j = j + 1;
            }
            proof {
                assert(row.path@.take(row.path@.len() as int) =~= row.path@);
            }
            proof {
                reveal_strlit(" ");
            }
            s.append(" ");
            append_u64(&mut s, row.count);
            proof {
                reveal_strlit("\n");
            }
            s.append("\n");
            proof {
                assert(models.take(i + 1).drop_last() =~= models.take(i as int));
                assert(models.take(i + 1).last() == models[i as int]);
                assert(s@ =~= flame_output(heap.records@, models.take(i as int)) + flame_line(
                    heap.records@,
                    models[i as int],
                ));
                assert(s@ =~= flame_output(heap.records@, models.take(i + 1)));
            }
            i = i + 1;
        }
        proof {
            assert(models.take(rows@.len() as int) =~= models);
        }
        s
    }

    /// Render the per-function tabular summary (CSV).
    pub fn write_summarized_heap_profile(heap: &Heap) -> (s: String)
        ensures
            s@ == summary_output(heap.records@, aggregate_funcs(walk(heap.records@).1)),
    {
        let rows = collect_funcs(heap);
        let ghost models = func_models(rows@);
        let mut s = String::new();
        proof {
            reveal_strlit("function,calls,time_incl_ns,time_excl_ns,bytes_incl,bytes_excl\n");
        }
        s.append("function,calls,time_incl_ns,time_excl_ns,bytes_incl,bytes_excl\n");
        let mut i: usize = 0;
        proof {
            assert(models.take(0) =~= Seq::<FuncModel>::empty());
            assert(s@ =~= summary_output(heap.records@, models.take(0)));
        }
        while i < rows.len()
            invariant
                i <= rows@.len(),
                models == func_models(rows@),
                models.len() == rows@.len(),
                s@ == summary_output(heap.records@, models.take(i as int)),
            decreases rows@.len() - i,
        {
            let row = &rows[i];
            proof {
                assert(models[i as int] == rows@[i as int].model());
                reveal_strlit(",");
                reveal_strlit("\n");
            }
            let ghost line_start = s@;
            append_value_name(&mut s, heap, row.function);
            s.append(",");
            append_u64(&mut s, row.count);
            s.append(",");
            append_u64(&mut s, row.time_incl);
            s.append(",");
            append_u64(&mut s, row.time_excl);
            s.append(",");
            append_u64(&mut s, row.bytes_incl);
            s.append(",");
            append_u64(&mut s, row.bytes_excl);
            s.append("\n");
            proof {
                assert(s@ =~= line_start + summary_line(heap.records@, models[i as int]));
                assert(models.take(i + 1).drop_last() =~= models.take(i as int));
                assert(models.take(i + 1).last() == models[i as int]);
                assert(s@ =~= summary_output(heap.records@, models.take(i + 1)));
            }
            i = i + 1;
        }
        proof {
            assert(models.take(rows@.len() as int) =~= models);
        }
        s
    }
}

} // verus!
