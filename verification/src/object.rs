//! The generic owning handle `Obj<T>` and the capability contract `CanObj`.
//!
//! Every handle has the same shape whatever its type parameter: a slot
//! (either nothing, an inline integer, or an index into the shared heap),
//! the dispatch identity of its concrete type, and a ghost ownership mark.
//! Because the shape never depends on `T`, a handle can be reinterpreted
//! as the type-independent `Obj<PtyPtr>` and back without touching the
//! value it denotes.
//!
//! Ownership discipline: a handle built by `new` or `clone` owns one unit
//! of its cell's count and must be given to `drop` exactly once; a handle
//! built by `cast_petty_ref` or `downcast_ref` is a borrowed view that owns
//! nothing and cannot be dropped.  The mark is ghost, so the discipline
//! costs nothing at run time; the verifier enforces it at every call.

use vstd::prelude::*;

use crate::ptyptr::PtyPtr;
use crate::vm::{heap_preserved, sat_inc, spec_drop_step, spec_free, spec_incr, Heap, Vm};
use crate::vtable::{strategy, Strategy, Tag, Vtable};
use core::marker::PhantomData;

verus! {

/// The physical storage of one handle.
#[derive(Clone, Copy, Debug)]
pub enum Slot {
    /// Zero-sized storage: nothing at all.
    Empty,
    /// Inline storage: the value's own bits, kept in the slot.
    Inline(i64),
    /// Boxed storage: the index of the counted heap cell holding the value.
    Boxed(usize),
}

/// What a handle logically denotes, independent of how it is stored.
pub enum Value {
    Null,
    Int(i64),
    Str(Seq<char>),
}

/// The ghost content of a handle: its slot, its type identity, and whether
/// it owns a unit of its cell's count.
pub struct ObjV {
    pub slot: Slot,
    pub tag: Tag,
    pub owned: bool,
}

impl ObjV {
    /// The slot fits the storage strategy of the tag, the tag is a real
    /// concrete type, and a boxed slot points at a live cell.
    pub open spec fn wf_in(&self, h: Heap) -> bool {
        &&& self.tag != Tag::Petty
        &&& match self.slot {
            Slot::Empty => strategy(self.tag) == Strategy::Empty,
            Slot::Inline(_) => strategy(self.tag) == Strategy::Inline,
            Slot::Boxed(ix) => strategy(self.tag) == Strategy::Boxed && h.live_at(
                ix as int,
            ),
        }
    }

    /// The value the handle denotes, read against a heap.
    pub open spec fn value_in(&self, h: Heap) -> Value {
        match self.slot {
            Slot::Empty => Value::Null,
            Slot::Inline(i) => Value::Int(i),
            Slot::Boxed(ix) => Value::Str(h.cells()[ix as int].payload->Some_0@),
        }
    }
}

/// The uniform owning handle: one fixed shape for every storable type.
#[verifier::reject_recursive_types(T)]
pub struct Obj<T> {
    pub(crate) slot: Slot,
    pub(crate) table: Vtable,
    pub(crate) owned: Ghost<bool>,
    pub(crate) _t: PhantomData<T>,
}

impl<T> View for Obj<T> {
    type V = ObjV;

    open(crate) spec fn view(&self) -> ObjV {
        ObjV { slot: self.slot, tag: self.table.tag, owned: self.owned@ }
    }
}

/// The capability contract: the fixed operation set of every storable type.
///
/// The first erased operand of a type's own operation is always an instance
/// of that type; an implementation may rely on it, and the dispatcher
/// upholds it.  Operations a type does not support report a not-implemented
/// condition to the execution context and return the harmless null handle;
/// they never abort the process.
pub trait CanObj: Sized {
    /// The type's runtime identity.
    spec fn tag() -> Tag;

    /// The runtime value of `tag()`.
    fn exec_tag() -> (t: Tag)
        ensures
            t == Self::tag(),
    ;

    /// Look an item up by key.  No built-in type supports this yet: the
    /// condition is reported and the null handle returned.
    fn get_item(vm: &mut Vm, obj: &Obj<PtyPtr>, key: &str) -> (r: Obj<PtyPtr>)
        requires
            old(vm).wf(),
            obj@.wf_in(old(vm).heap),
        ensures
            final(vm).wf(),
            final(vm).heap == old(vm).heap,
            final(vm).not_implemented == sat_inc(old(vm).not_implemented),
            r@.slot == Slot::Empty,
            r@.tag == Tag::Null,
            r@.owned,
    {
        vm.raise_not_implemented();
        null_object()
    }

    /// Store an item under a key.  No built-in type supports this yet.
    fn set_item(vm: &mut Vm, obj: &Obj<PtyPtr>, key: &str, val: &Obj<PtyPtr>)
        requires
            old(vm).wf(),
            obj@.wf_in(old(vm).heap),
            val@.wf_in(old(vm).heap),
        ensures
            final(vm).wf(),
            final(vm).heap == old(vm).heap,
            final(vm).not_implemented == sat_inc(old(vm).not_implemented),
    {
        vm.raise_not_implemented();
    }

    /// Invoke the value.  No built-in type supports this yet.
    fn call(vm: &mut Vm, obj: &Obj<PtyPtr>) -> (r: Obj<PtyPtr>)
        requires
            old(vm).wf(),
            obj@.wf_in(old(vm).heap),
        ensures
            final(vm).wf(),
            final(vm).heap == old(vm).heap,
            final(vm).not_implemented == sat_inc(old(vm).not_implemented),
            r@.slot == Slot::Empty,
            r@.tag == Tag::Null,
            r@.owned,
    {
        vm.raise_not_implemented();
        null_object()
    }

    /// The finalize hook: release the cell of a boxed handle whose last
    /// owner is going away.  It runs exactly when the count is about to go
    /// from one to zero, and a freed cell can never be freed again, so it
    /// runs at most once per cell.
    fn delete(vm: &mut Vm, obj: &Obj<PtyPtr>)
        requires
            old(vm).wf(),
            obj@.slot is Boxed,
            old(vm).heap.live_at(obj@.slot->Boxed_0 as int),
            old(vm).heap.cells()[obj@.slot->Boxed_0 as int].count == 1,
        ensures
            final(vm).wf(),
            final(vm).not_implemented == old(vm).not_implemented,
            final(vm).heap.cells() == spec_free(
                old(vm).heap.cells(),
                obj@.slot->Boxed_0 as int,
            ),
    {
        if let Slot::Boxed(ix) = obj.slot {
            vm.heap.free(ix);
        }
    }

    /// The binary addition hook.  The default reports not-implemented;
    /// every built-in implementation restates its exact outcome, over
    /// `binop_result`, in its own ensures.
    fn __add__(vm: &mut Vm, lhs: &Obj<PtyPtr>, rhs: &Obj<PtyPtr>) -> (r: Obj<PtyPtr>)
        requires
            old(vm).wf(),
            lhs@.wf_in(old(vm).heap),
            rhs@.wf_in(old(vm).heap),
            Self::tag() == Tag::Petty || lhs@.tag == Self::tag(),
            lhs@.slot is Boxed ==> old(vm).heap.cells()[lhs@.slot->Boxed_0 as int].count
                < usize::MAX,
            rhs@.slot is Boxed ==> old(vm).heap.cells()[rhs@.slot->Boxed_0 as int].count
                < usize::MAX,
        ensures
            final(vm).wf(),
            heap_preserved(old(vm).heap, final(vm).heap),
            r@.wf_in(final(vm).heap),
            r@.owned,
    {
        vm.raise_not_implemented();
        null_object()
    }

    /// The binary subtraction hook.  The default reports not-implemented.
    fn __sub__(vm: &mut Vm, lhs: &Obj<PtyPtr>, rhs: &Obj<PtyPtr>) -> (r: Obj<PtyPtr>)
        requires
            old(vm).wf(),
            lhs@.wf_in(old(vm).heap),
            rhs@.wf_in(old(vm).heap),
            Self::tag() == Tag::Petty || lhs@.tag == Self::tag(),
            lhs@.slot is Boxed ==> old(vm).heap.cells()[lhs@.slot->Boxed_0 as int].count
                < usize::MAX,
            rhs@.slot is Boxed ==> old(vm).heap.cells()[rhs@.slot->Boxed_0 as int].count
                < usize::MAX,
        ensures
            final(vm).wf(),
            heap_preserved(old(vm).heap, final(vm).heap),
            r@.wf_in(final(vm).heap),
            r@.owned,
    {
        vm.raise_not_implemented();
        null_object()
    }

    /// The binary multiplication hook.  The default reports not-implemented.
    fn __mul__(vm: &mut Vm, lhs: &Obj<PtyPtr>, rhs: &Obj<PtyPtr>) -> (r: Obj<PtyPtr>)
        requires
            old(vm).wf(),
            lhs@.wf_in(old(vm).heap),
            rhs@.wf_in(old(vm).heap),
            Self::tag() == Tag::Petty || lhs@.tag == Self::tag(),
            lhs@.slot is Boxed ==> old(vm).heap.cells()[lhs@.slot->Boxed_0 as int].count
                < usize::MAX,
            rhs@.slot is Boxed ==> old(vm).heap.cells()[rhs@.slot->Boxed_0 as int].count
                < usize::MAX,
        ensures
            final(vm).wf(),
            heap_preserved(old(vm).heap, final(vm).heap),
            r@.wf_in(final(vm).heap),
            r@.owned,
    {
        vm.raise_not_implemented();
        null_object()
    }

    /// The binary division hook.  The default reports not-implemented.
    fn __div__(vm: &mut Vm, lhs: &Obj<PtyPtr>, rhs: &Obj<PtyPtr>) -> (r: Obj<PtyPtr>)
        requires
            old(vm).wf(),
            lhs@.wf_in(old(vm).heap),
            rhs@.wf_in(old(vm).heap),
            Self::tag() == Tag::Petty || lhs@.tag == Self::tag(),
            lhs@.slot is Boxed ==> old(vm).heap.cells()[lhs@.slot->Boxed_0 as int].count
                < usize::MAX,
            rhs@.slot is Boxed ==> old(vm).heap.cells()[rhs@.slot->Boxed_0 as int].count
                < usize::MAX,
        ensures
            final(vm).wf(),
            heap_preserved(old(vm).heap, final(vm).heap),
            r@.wf_in(final(vm).heap),
            r@.owned,
    {
        vm.raise_not_implemented();
        null_object()
    }
}

/// Types whose values are kept inline in the slot rather than boxed: they
/// are `Copy`, they need no heap cell and no count, and building or
/// dropping a handle of such a type never touches the heap.
pub trait ValueObj: CanObj + Copy {
    /// The selected strategy really avoids the heap.
    proof fn value_strategy()
        ensures
            strategy(Self::tag()) != Strategy::Boxed,
    ;
}

/// Zero-sized types: no storage at all, not even the slot's bits are read.
pub trait ZeroObj: ValueObj {
    /// The selected strategy stores nothing.
    proof fn zero_strategy()
        ensures
            strategy(Self::tag()) == Strategy::Empty,
    ;
}

/// Seals `ObjImpl`: only handles built by this module implement it.
pub trait Seal {}

impl<T: CanObj> Seal for Obj<T> {}

/// Construction and reading, resolved once per concrete type: the boxed
/// fallback, the inline strategy, and the zero-sized strategy each give
/// their own implementation.
pub trait ObjImpl<T>: Seal + Sized {
    /// What `new` does to the context and what handle it returns.
    spec fn new_ens(vm0: Vm, vm1: Vm, value: T, obj: Self) -> bool;

    /// What a handle must satisfy before it can be read.
    spec fn value_req(&self, vm: Vm) -> bool;

    /// What reading a handle returns.
    spec fn value_ens(&self, vm: Vm, r: T) -> bool;

    /// Wrap a value in a fresh owning handle, choosing the storage strategy
    /// of its type.
    fn new(value: T, vm: &mut Vm) -> (obj: Self)
        requires
            old(vm).wf(),
        ensures
            final(vm).wf(),
            Self::new_ens(*old(vm), *final(vm), value, obj),
    ;

    /// Read the stored value without changing anything.
    fn value<'a>(&'a self, vm: &'a Vm) -> (r: &'a T)
        requires
            vm.wf(),
            self.value_req(*vm),
        ensures
            self.value_ens(*vm, *r),
    ;
}

impl<T: CanObj> Obj<T> {
    /// Shape and type invariant of a handle of static type `T`: well-formed
    /// against the heap, and (except for the erased form) carrying exactly
    /// `T`'s identity.
    pub open spec fn wf(&self, h: Heap) -> bool {
        &&& self@.wf_in(h)
        &&& T::tag() == Tag::Petty || self@.tag == T::tag()
    }

    /// Reinterpret an owning handle as the type-independent form.  Nothing
    /// is validated and nothing changes: every handle already has the one
    /// shared shape.
    pub fn cast_petty(self) -> (r: Obj<PtyPtr>)
        ensures
            r@ == self@,
    {
        Obj { slot: self.slot, table: self.table, owned: self.owned, _t: PhantomData }
    }

    /// A borrowed view of the handle in the type-independent form: it
    /// shares the slot but owns no unit of the count, so it can be read and
    /// cloned but never dropped.
    pub fn cast_petty_ref(&self) -> (r: Obj<PtyPtr>)
        ensures
            r@.slot == self@.slot,
            r@.tag == self@.tag,
            !r@.owned,
    {
        Obj { slot: self.slot, table: self.table, owned: Ghost(false), _t: PhantomData }
    }

    /// Route `get_item` through the type's capability implementation.
    pub fn get_item(&self, vm: &mut Vm, key: &str) -> (r: Obj<PtyPtr>)
        requires
            old(vm).wf(),
            self.wf(old(vm).heap),
        ensures
            final(vm).wf(),
            final(vm).heap == old(vm).heap,
            final(vm).not_implemented == sat_inc(old(vm).not_implemented),
            r@.slot == Slot::Empty,
            r@.tag == Tag::Null,
            r@.owned,
    {
        let erased = self.cast_petty_ref();
        T::get_item(vm, &erased, key)
    }

    /// True exactly when the handle's type avoids boxed storage, so the
    /// handle has no reference count.
    pub fn is_value(&self) -> (r: bool)
        ensures
            r == !(self@.slot is Boxed),
    {
        match self.slot {
            Slot::Boxed(_) => false,
            _ => true,
        }
    }

    /// The live-handle count behind the handle, if its storage has one.
    pub fn ref_count<'a>(&self, vm: &'a Vm) -> (r: Option<&'a usize>)
        requires
            self@.slot is Boxed ==> vm.heap.live_at(self@.slot->Boxed_0 as int),
        ensures
            r is Some <==> self@.slot is Boxed,
            r is Some ==> *r->Some_0 == vm.heap.cells()[self@.slot->Boxed_0 as int].count,
    {
        match self.slot {
            Slot::Boxed(ix) => Some(vm.heap.count_ref(ix)),
            _ => None,
        }
    }

    /// True exactly when the handle was built with the concrete type `U`:
    /// dispatch identity is the sole runtime witness of a handle's type.
    pub fn is_type<U: CanObj>(&self) -> (r: bool)
        ensures
            r == (self@.tag == U::tag()),
    {
        self.table.tag == U::exec_tag()
    }

    /// A further owning handle onto the same value.  Only boxed storage has
    /// a count to bump; inline and zero-sized handles copy for free.
    pub fn clone(&self, vm: &mut Vm) -> (r: Obj<T>)
        requires
            old(vm).wf(),
            self.wf(old(vm).heap),
            self@.slot is Boxed ==> old(vm).heap.cells()[self@.slot->Boxed_0 as int].count
                < usize::MAX,
        ensures
            final(vm).wf(),
            final(vm).not_implemented == old(vm).not_implemented,
            r@.slot == self@.slot,
            r@.tag == self@.tag,
            r@.owned,
            self@.slot is Boxed ==> final(vm).heap.cells() == spec_incr(
                old(vm).heap.cells(),
                self@.slot->Boxed_0 as int,
            ),
            !(self@.slot is Boxed) ==> final(vm).heap == old(vm).heap,
    {
        if let Slot::Boxed(ix) = self.slot {
            vm.heap.incr(ix);
        }
        Obj { slot: self.slot, table: self.table, owned: Ghost(true), _t: PhantomData }
    }

    /// Give up an owning handle.  For boxed storage the count goes down by
    /// one, and when this owner was the last, the type's finalize hook runs
    /// and the cell is released; for the other strategies nothing happens.
    pub fn drop(self, vm: &mut Vm)
        requires
            old(vm).wf(),
            self.wf(old(vm).heap),
            self@.owned,
        ensures
            final(vm).wf(),
            final(vm).not_implemented == old(vm).not_implemented,
            self@.slot is Boxed ==> final(vm).heap.cells() == spec_drop_step(
                old(vm).heap.cells(),
                self@.slot->Boxed_0 as int,
            ),
            !(self@.slot is Boxed) ==> final(vm).heap == old(vm).heap,
    {
        if let Slot::Boxed(ix) = self.slot {
            let c = vm.heap.count(ix);
            if c == 1 {
                let erased = self.cast_petty_ref();
                T::delete(vm, &erased);
            } else {
                vm.heap.decr(ix);
            }
        }
    }
}

/// The harmless placeholder: a fresh null handle, built without touching
/// the heap.
pub fn null_object() -> (r: Obj<PtyPtr>)
    ensures
        r@.slot == Slot::Empty,
        r@.tag == Tag::Null,
        r@.owned,
{
    Obj {
        slot: Slot::Empty,
        table: Vtable { tag: Tag::Null },
        owned: Ghost(true),
        _t: PhantomData,
    }
}

} // verus!
