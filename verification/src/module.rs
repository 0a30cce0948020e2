//! Modules and their variable storage.
//!
//! A `Module` owns the mutable value heap, a frozen heap, and the
//! module-level slot table (slot index to current value, with the names
//! retained only for error messages). A `FrozenModuleRef` is the
//! immutable, shareable view of a finished module's slots, resolved
//! through a frozen heap only.

use vstd::prelude::*;
use crate::values::{FrozenHeap, FrozenValue, Heap, Value, ValueData};

verus! {

/// What the handle `v` resolves to inside module `m`: the allocation data,
/// or `None` for a dangling handle.
pub open spec fn resolved_in_module(m: Module, v: Value) -> Option<ValueData> {
    match v {
        Value::Mutable(i) => if crate::values::is_data_at(m.heap.records@, i as int) {
            Option::Some(crate::values::data_at(m.heap.records@, i as int))
        } else {
            Option::None
        },
        Value::Frozen(i) => if (i as int) < m.frozen_heap.cells@.len() {
            Option::Some(m.frozen_heap.cells@[i as int])
        } else {
            Option::None
        },
    }
}

/// `post` is `pre` with `name` bound to `value`: the first slot already
/// named `name` was assigned, or a new slot was reserved and assigned.
/// The heaps are untouched.
pub open spec fn set_binds(pre: Module, name: String, value: Value, post: Module) -> bool {
    &&& post.heap == pre.heap
    &&& post.frozen_heap == pre.frozen_heap
    &&& ((exists|j: int|
        {
            &&& 0 <= j < pre.names@.len()
            &&& pre.names@[j]@ == name@
            &&& (forall|k: int| 0 <= k < j ==> pre.names@[k]@ != name@)
            &&& post.names@ == pre.names@
            &&& post.slots@ =~= pre.slots@.update(j, Option::Some(value))
        }) || {
        &&& (forall|k: int| 0 <= k < pre.names@.len() ==> pre.names@[k]@ != name@)
        &&& post.names@ =~= pre.names@.push(name)
        &&& post.slots@ =~= pre.slots@.push(Option::Some(value))
    })
}

/// A module under evaluation: the heaps and the module slot table.
#[derive(Debug)]
pub struct Module {
    pub heap: Heap,
    pub frozen_heap: FrozenHeap,
    pub slots: Vec<Option<Value>>,
    pub names: Vec<String>,
}

/// What reading module slot `slot` yields: `None` when the id is out of
/// range or the slot was never assigned.
pub open spec fn module_slot_value(m: Module, slot: int) -> Option<Value> {
    if 0 <= slot < m.slots@.len() {
        m.slots@[slot]
    } else {
        Option::None
    }
}

impl Module {
    /// One name per slot.
    pub open spec fn wf(self) -> bool {
        self.slots@.len() == self.names@.len()
    }

    pub fn new() -> (m: Module)
        ensures
            m.wf(),
            m.heap.records@ =~= Seq::<crate::values::HeapRecord>::empty(),
            m.heap.allocated_bytes == 0,
            m.frozen_heap.cells@ =~= Seq::<ValueData>::empty(),
            m.slots@ =~= Seq::<Option<Value>>::empty(),
            m.names@ =~= Seq::<String>::empty(),
    {
        Module {
            heap: Heap::new(),
            frozen_heap: FrozenHeap::new(),
            slots: Vec::new(),
            names: Vec::new(),
        }
    }

    /// Reserve a fresh, unassigned slot for `name` and return its id.
    /// Ids are handed out densely, at program-preparation time.
    pub fn add_variable(&mut self, name: String) -> (id: usize)
        requires
            old(self).wf(),
        ensures
            final(self).wf(),
            id == old(self).slots@.len(),
            final(self).slots@ =~= old(self).slots@.push(Option::None),
            final(self).names@ =~= old(self).names@.push(name),
            final(self).heap == old(self).heap,
            final(self).frozen_heap == old(self).frozen_heap,
    {
        let id = self.slots.len();
        self.slots.push(Option::None);
        self.names.push(name);
        id
    }

    /// Read module slot `slot`.
    pub fn get_slot(&self, slot: usize) -> (r: Option<Value>)
        ensures
            r == module_slot_value(*self, slot as int),
    {
        if slot < self.slots.len() {
            self.slots[slot]
        } else {
            Option::None
        }
    }

    /// The retained name of slot `slot`, for error messages only.
    pub fn get_slot_name(&self, slot: usize) -> (r: Option<String>)
        ensures
            slot < self.names@.len() ==> (r matches Option::Some(n)
                && n == self.names@[slot as int]),
            slot >= self.names@.len() ==> r is None,
    {
        if slot < self.names.len() {
            Option::Some(self.names[slot].clone())
        } else {
            Option::None
        }
    }

    /// Assign module slot `slot`. Ids are in range by construction
    /// upstream, so this has no failure case.
    pub fn set_slot(&mut self, slot: usize, value: Value)
        requires
            slot < old(self).slots@.len(),
        ensures
            final(self).slots@ =~= old(self).slots@.update(slot as int, Option::Some(value)),
            final(self).names == old(self).names,
            final(self).heap == old(self).heap,
            final(self).frozen_heap == old(self).frozen_heap,
    {
        self.slots[slot] = Option::Some(value);
    }

    /// Bind `name` to `value`: assign the slot already named `name` (the
    /// first such slot), or reserve a new one.
    pub fn set(&mut self, name: String, value: Value)
        requires
            old(self).wf(),
        ensures
            final(self).wf(),
            set_binds(*old(self), name, value, *final(self)),
    {
        let mut i: usize = 0;
        while i < self.names.len()
            invariant
                self == old(self),
                self.wf(),
                i <= self.names@.len(),
                forall|k: int| 0 <= k < i ==> old(self).names@[k]@ != name@,
            decreases self.names@.len() - i,
        {
            if self.names[i] == name {
                self.slots[i] = Option::Some(value);
                proof {
                    assert(0 <= i < old(self).names@.len() && old(self).names@[i as int]@ == name@
                        && (forall|k: int| 0 <= k < i ==> old(self).names@[k]@ != name@)
                        && self.names@ == old(self).names@ && self.slots@ =~= old(
                        self,
                    ).slots@.update(i as int, Option::Some(value)));
                }
                return;
            }
            i = i + 1;
        }
        self.slots.push(Option::Some(value));
        self.names.push(name);
    }

    /// Freeze the module's current slot table into a shareable, read-only
    /// view: every reachable slot value is copied into a frozen heap, and
    /// dangling handles freeze as unassigned.
    pub fn freeze(&self) -> (r: FrozenModuleRef)
        requires
            self.wf(),
        ensures
            r.wf(),
            r.names@ == self.names@,
            r.slots@.len() == self.slots@.len(),
            forall|i: int|
                0 <= i < self.slots@.len() ==> match self.slots@[i] {
                    Option::Some(v) => match resolved_in_module(*self, v) {
                        Option::Some(d) => (#[trigger] r.slots@[i]) matches Option::Some(fv)
                            && fv.idx < r.heap.cells@.len() && r.heap.cells@[fv.idx as int] == d,
                        Option::None => r.slots@[i] is None,
                    },
                    Option::None => r.slots@[i] is None,
                },
    {
        let mut heap = FrozenHeap::new();
        let mut slots: Vec<Option<FrozenValue>> = Vec::new();
        let mut i: usize = 0;
        while i < self.slots.len()
            invariant
                self.wf(),
                i <= self.slots@.len(),
                slots@.len() == i,
                forall|j: int|
                    0 <= j < i ==> match self.slots@[j] {
                        Option::Some(v) => match resolved_in_module(*self, v) {
                            Option::Some(d) => (#[trigger] slots@[j]) matches Option::Some(fv)
                                && fv.idx < heap.cells@.len() && heap.cells@[fv.idx as int] == d,
                            Option::None => slots@[j] is None,
                        },
                        Option::None => slots@[j] is None,
                    },
            decreases self.slots@.len() - i,
        {
            let entry: Option<FrozenValue> = match self.slots[i] {
                Option::Some(v) => {
                    let data: Option<&ValueData> = match v {
                        Value::Mutable(idx) => self.heap.get(idx),
                        Value::Frozen(idx) => self.frozen_heap.get(idx),
                    };
                    match data {
                        Option::Some(d) => Option::Some(heap.allocate(d.duplicate())),
                        Option::None => Option::None,
                    }
                },
                Option::None => Option::None,
            };
            slots.push(entry);
            i = i + 1;
        }
        FrozenModuleRef { heap, slots, names: clone_names(&self.names) }
    }
}

/// Duplicate a name table.
fn clone_names(names: &Vec<String>) -> (r: Vec<String>)
    ensures
        r@ == names@,
{
    let mut r: Vec<String> = Vec::new();
    let mut i: usize = 0;
    while i < names.len()
        invariant
            i <= names@.len(),
            r@ =~= names@.subrange(0, i as int),
        decreases names@.len() - i,
    {
        r.push(names[i].clone());
        proof {
            assert(r@ =~= names@.subrange(0, i + 1));
        }
        i = i + 1;
    }
    proof {
        assert(names@.subrange(0, names@.len() as int) =~= names@);
    }
    r
}

/// An immutable, shareable view over a finished module's slot table,
/// resolved through a frozen heap only. Many evaluations may read one
/// concurrently; nothing here mutates.
#[derive(Debug)]
pub struct FrozenModuleRef {
    pub heap: FrozenHeap,
    pub slots: Vec<Option<FrozenValue>>,
    pub names: Vec<String>,
}

/// What reading slot `slot` of a frozen view yields.
pub open spec fn frozen_slot_value(f: FrozenModuleRef, slot: int) -> Option<FrozenValue> {
    if 0 <= slot < f.slots@.len() {
        f.slots@[slot]
    } else {
        Option::None
    }
}

impl FrozenModuleRef {
    /// One name per slot.
    pub open spec fn wf(self) -> bool {
        self.slots@.len() == self.names@.len()
    }

    /// Read slot `slot` of the frozen view.
    pub fn get_slot(&self, slot: usize) -> (r: Option<FrozenValue>)
        ensures
            r == frozen_slot_value(*self, slot as int),
    {
        if slot < self.slots.len() {
            self.slots[slot]
        } else {
            Option::None
        }
    }

    /// The retained name of slot `slot`, for error messages only.
    pub fn get_slot_name(&self, slot: usize) -> (r: Option<String>)
        ensures
            slot < self.names@.len() ==> (r matches Option::Some(n)
                && n == self.names@[slot as int]),
            slot >= self.names@.len() ==> r is None,
    {
        if slot < self.names.len() {
            Option::Some(self.names[slot].clone())
        } else {
            Option::None
        }
    }

    pub fn duplicate(&self) -> (r: FrozenModuleRef)
        ensures
            r.heap.cells@ == self.heap.cells@,
            r.slots@ == self.slots@,
            r.names@ == self.names@,
    {
        let mut cells: Vec<ValueData> = Vec::new();
        let mut i: usize = 0;
        while i < self.heap.cells.len()
            invariant
                i <= self.heap.cells@.len(),
                cells@ =~= self.heap.cells@.subrange(0, i as int),
            decreases self.heap.cells@.len() - i,
        {
            cells.push(self.heap.cells[i].duplicate());
            proof {
                assert(cells@ =~= self.heap.cells@.subrange(0, i + 1));
            }
            i = i + 1;
        }
        let mut slots: Vec<Option<FrozenValue>> = Vec::new();
        let mut j: usize = 0;
        while j < self.slots.len()
            invariant
                j <= self.slots@.len(),
                slots@ =~= self.slots@.subrange(0, j as int),
            decreases self.slots@.len() - j,
        {
            slots.push(self.slots[j]);
            proof {
                assert(slots@ =~= self.slots@.subrange(0, j + 1));
            }
            j = j + 1;
        }
        proof {
            assert(cells@ =~= self.heap.cells@);
            assert(slots@ =~= self.slots@);
        }
        FrozenModuleRef { heap: FrozenHeap { cells }, slots, names: clone_names(&self.names) }
    }
}

/// The global-name resolver an evaluation is bound to: a table of global
/// names with their frozen values.
#[derive(Debug)]
pub struct Globals {
    pub heap: FrozenHeap,
    pub names: Vec<String>,
    pub values: Vec<FrozenValue>,
}

impl Globals {
    /// One value per name.
    pub open spec fn wf(self) -> bool {
        self.names@.len() == self.values@.len()
    }

    pub fn new() -> (g: Globals)
        ensures
            g.wf(),
            g.names@ =~= Seq::<String>::empty(),
    {
        Globals { heap: FrozenHeap::new(), names: Vec::new(), values: Vec::new() }
    }

    /// Register the global `name` with the value `data`.
    pub fn add(&mut self, name: String, data: ValueData)
        requires
            old(self).wf(),
        ensures
            final(self).wf(),
            final(self).names@ =~= old(self).names@.push(name),
    {
        let fv = self.heap.allocate(data);
        self.names.push(name);
        self.values.push(fv);
    }

    /// Resolve the global `name` (first match).
    pub fn get(&self, name: &String) -> (r: Option<FrozenValue>)
        requires
            self.wf(),
        ensures
            (exists|j: int|
                {
                    &&& 0 <= j < self.names@.len()
                    &&& self.names@[j]@ == name@
                    &&& (forall|k: int| 0 <= k < j ==> self.names@[k]@ != name@)
                    &&& r == Option::Some(self.values@[j])
                }) || ((forall|k: int|
                0 <= k < self.names@.len() ==> self.names@[k]@ != name@) && r is None),
    {
        let mut i: usize = 0;
        while i < self.names.len()
            invariant
                self.wf(),
                i <= self.names@.len(),
                forall|k: int| 0 <= k < i ==> self.names@[k]@ != name@,
            decreases self.names@.len() - i,
        {
            if self.names[i].eq(name) {
                return Option::Some(self.values[i]);
            }
            i = i + 1;
        }
        Option::None
    }
}

/// The collaborator used to resolve `load(...)` statements: a table from
/// load paths to already-frozen modules. Hosts configure one before the
/// first `load` executes.
#[derive(Debug)]
pub struct ModuleLoader {
    pub paths: Vec<String>,
    pub modules: Vec<FrozenModuleRef>,
}

impl ModuleLoader {
    /// One module per path.
    pub open spec fn wf(self) -> bool {
        self.paths@.len() == self.modules@.len()
    }

    pub fn new() -> (l: ModuleLoader)
        ensures
            l.wf(),
            l.paths@ =~= Seq::<String>::empty(),
    {
        ModuleLoader { paths: Vec::new(), modules: Vec::new() }
    }

    /// Register `module` as the result of loading `path`.
    pub fn add(&mut self, path: String, module: FrozenModuleRef)
        requires
            old(self).wf(),
        ensures
            final(self).wf(),
            final(self).paths@ =~= old(self).paths@.push(path),
            final(self).modules@ =~= old(self).modules@.push(module),
    {
        self.paths.push(path);
        self.modules.push(module);
    }

    /// Resolve `path` to its module (first match).
    pub fn resolve(&self, path: &String) -> (r: Option<&FrozenModuleRef>)
        requires
            self.wf(),
        ensures
            (exists|j: int|
                {
                    &&& 0 <= j < self.paths@.len()
                    &&& self.paths@[j]@ == path@
                    &&& (forall|k: int| 0 <= k < j ==> self.paths@[k]@ != path@)
                    &&& (r matches Option::Some(m) && *m == self.modules@[j])
                }) || ((forall|k: int|
                0 <= k < self.paths@.len() ==> self.paths@[k]@ != path@) && r is None),
    {
        let mut i: usize = 0;
        while i < self.paths.len()
            invariant
                self.wf(),
                i <= self.paths@.len(),
                forall|k: int| 0 <= k < i ==> self.paths@[k]@ != path@,
            decreases self.paths@.len() - i,
        {
            if self.paths[i].eq(path) {
                return Option::Some(&self.modules[i]);
            }
            i = i + 1;
        }
        Option::None
    }
}

} // verus!
