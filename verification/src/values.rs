//! Values and the two arenas that hold them: the mutable per-execution
//! value heap and the never-collected frozen heap.
//!
//! A value is a tagged handle into one of the arenas, never a raw pointer.
//! The mutable heap is append-only within one execution; besides
//! allocations it also stores the linear record of call-enter/call-exit
//! markers that the call profiler aggregates afterwards.

use vstd::prelude::*;
use crate::render::{append_i64, dec_i64};

verus! {

/// Data stored in one allocation cell of an arena.
#[derive(Debug)]
pub enum ValueData {
    Int(i64),
    Str(String),
    /// A function value; carries the name used for diagnostics and
    /// profiling identification.
    Function(String),
}

impl ValueData {
    pub fn duplicate(&self) -> (r: ValueData)
        ensures
            r == *self,
    {
        match self {
            ValueData::Int(i) => ValueData::Int(*i),
            ValueData::Str(s) => ValueData::Str(s.clone()),
            ValueData::Function(n) => ValueData::Function(n.clone()),
        }
    }
}

/// Bytes charged for one allocation of `d`. The runtime uses a fixed
/// per-cell cost by kind; only relative allocation volume matters for the
/// GC trigger policy and the profiler.
pub open spec fn data_size(d: ValueData) -> u64 {
    match d {
        ValueData::Int(_) => 16,
        ValueData::Str(_) => 32,
        ValueData::Function(_) => 32,
    }
}

/// A value handle: a cell of the mutable value heap, or a cell of a frozen
/// heap. Values never reference across from frozen to mutable.
#[derive(Clone, Copy, PartialEq, Eq, Structural, Debug)]
pub enum Value {
    Mutable(usize),
    Frozen(usize),
}

impl Value {
    /// View a frozen value as a value.
    pub fn new_frozen(f: FrozenValue) -> (v: Value)
        ensures
            v == Value::Frozen(f.idx),
    {
        Value::Frozen(f.idx)
    }
}

/// A handle that can only point into a frozen heap, and so is safe to
/// share across executions.
#[derive(Clone, Copy, PartialEq, Eq, Structural, Debug)]
pub struct FrozenValue {
    pub idx: usize,
}

/// One record of the mutable heap: an allocation, or a profiling marker
/// recorded at a call boundary while the call profiler is enabled.
#[derive(Debug)]
pub enum HeapRecord {
    Data(ValueData),
    CallEnter { function: Value, time: u64 },
    CallExit { time: u64 },
}

/// The mutable value heap: an append-only arena for one execution,
/// collected only through the host-driven GC protocol. `allocated_bytes`
/// counts allocation volume (saturating) and drives the GC trigger.
#[derive(Debug)]
pub struct Heap {
    pub records: Vec<HeapRecord>,
    pub allocated_bytes: u64,
}

/// The cell `idx` of `records` holds an allocation (not a marker).
pub open spec fn is_data_at(records: Seq<HeapRecord>, idx: int) -> bool {
    0 <= idx < records.len() && records[idx] is Data
}

/// The data held by cell `idx`, which must satisfy `is_data_at`.
pub open spec fn data_at(records: Seq<HeapRecord>, idx: int) -> ValueData {
    records[idx]->Data_0
}

impl Heap {
    pub fn new() -> (h: Heap)
        ensures
            h.records@ =~= Seq::<HeapRecord>::empty(),
            h.allocated_bytes == 0,
    {
        Heap { records: Vec::new(), allocated_bytes: 0 }
    }

    /// Allocate `data` in a fresh cell and return its handle.
    pub fn allocate(&mut self, data: ValueData) -> (v: Value)
        ensures
            final(self).records@ =~= old(self).records@.push(HeapRecord::Data(data)),
            final(self).allocated_bytes
                == old(self).allocated_bytes.saturating_add(data_size(data)),
            v == Value::Mutable(old(self).records@.len() as usize),
    {
        let idx = self.records.len();
        let size: u64 = match &data {
            ValueData::Int(_) => 16,
            ValueData::Str(_) => 32,
            ValueData::Function(_) => 32,
        };
        self.allocated_bytes = self.allocated_bytes.saturating_add(size);
        self.records.push(HeapRecord::Data(data));
        Value::Mutable(idx)
    }

    /// Record a call-enter marker in the linear allocation record.
    pub fn push_call_enter(&mut self, function: Value, time: u64)
        ensures
            final(self).records@
                =~= old(self).records@.push(HeapRecord::CallEnter { function, time }),
            final(self).allocated_bytes == old(self).allocated_bytes,
    {
        self.records.push(HeapRecord::CallEnter { function, time });
    }

    /// Record a call-exit marker in the linear allocation record.
    pub fn push_call_exit(&mut self, time: u64)
        ensures
            final(self).records@ =~= old(self).records@.push(HeapRecord::CallExit { time }),
            final(self).allocated_bytes == old(self).allocated_bytes,
    {
        self.records.push(HeapRecord::CallExit { time });
    }

    /// Read the allocation held by cell `idx`; `None` for an index that is
    /// out of range or holds a profiling marker.
    pub fn get(&self, idx: usize) -> (r: Option<&ValueData>)
        ensures
            is_data_at(self.records@, idx as int)
                ==> (r matches Option::Some(d) && *d == data_at(self.records@, idx as int)),
            !is_data_at(self.records@, idx as int) ==> r is None,
    {
        if idx < self.records.len() {
            match &self.records[idx] {
                HeapRecord::Data(d) => Option::Some(d),
                _ => Option::None,
            }
        } else {
            Option::None
        }
    }
}

/// A frozen heap: an arena of values that outlive a single execution. It
/// is never collected and holds no profiling markers.
#[derive(Debug)]
pub struct FrozenHeap {
    pub cells: Vec<ValueData>,
}

impl FrozenHeap {
    pub fn new() -> (h: FrozenHeap)
        ensures
            h.cells@ =~= Seq::<ValueData>::empty(),
    {
        FrozenHeap { cells: Vec::new() }
    }

    /// Allocate `data` in a fresh frozen cell and return its handle.
    pub fn allocate(&mut self, data: ValueData) -> (v: FrozenValue)
        ensures
            final(self).cells@ =~= old(self).cells@.push(data),
            v.idx == old(self).cells@.len(),
    {
        let idx = self.cells.len();
        self.cells.push(data);
        FrozenValue { idx }
    }

    /// Read the frozen cell `idx`; `None` for an index out of range.
    pub fn get(&self, idx: usize) -> (r: Option<&ValueData>)
        ensures
            idx < self.cells@.len()
                ==> (r matches Option::Some(d) && *d == self.cells@[idx as int]),
            idx >= self.cells@.len() ==> r is None,
    {
        if idx < self.cells.len() {
            Option::Some(&self.cells[idx])
        } else {
            Option::None
        }
    }
}

/// The printable identity of an allocation, used in diagnostics and
/// profiling output.
pub open spec fn data_display(d: ValueData) -> Seq<char> {
    match d {
        ValueData::Int(i) => dec_i64(i as int),
        ValueData::Str(s) => s@,
        ValueData::Function(n) => n@,
    }
}

/// The printable identity of `v`, resolved against the two arenas; a
/// handle that resolves to no allocation prints as `<unknown>`.
pub open spec fn value_display(records: Seq<HeapRecord>, frozen: Seq<ValueData>, v: Value) -> Seq<
    char,
> {
    match v {
        Value::Mutable(i) => if is_data_at(records, i as int) {
            data_display(data_at(records, i as int))
        } else {
            "<unknown>"@
        },
        Value::Frozen(i) => if (i as int) < frozen.len() {
            data_display(frozen[i as int])
        } else {
            "<unknown>"@
        },
    }
}

/// Render the printable identity of `v`.
pub fn display_name(heap: &Heap, frozen: &FrozenHeap, v: Value) -> (s: String)
    ensures
        s@ =~= value_display(heap.records@, frozen.cells@, v),
{
    let od: Option<&ValueData> = match v {
        Value::Mutable(i) => heap.get(i),
        Value::Frozen(i) => frozen.get(i),
    };
    match od {
        Option::Some(d) => match d {
            ValueData::Int(i) => {
                let mut s = String::new();
                append_i64(&mut s, *i);
                s
            },
            ValueData::Str(s) => s.clone(),
            ValueData::Function(n) => n.clone(),
        },
        Option::None => "<unknown>".to_owned(),
    }
}

} // verus!
