//! The type-independent handle form and the downcast protocol.
//!
//! `Obj<PtyPtr>` is the erased representative: its capability methods look
//! at the handle's dispatch identity and route to the concrete type's
//! implementation.  Downcasting recovers the concrete type by comparing
//! that identity — checked (an empty result on mismatch, never a crash) or
//! unchecked (the caller proves the identity instead of testing it).

use vstd::prelude::*;

use crate::core_types::{binop_ens, Null, Op};
use crate::object::{null_object, CanObj, Obj, ObjImpl, Slot};
use crate::vm::{spec_drop_step, Vm};
use crate::vtable::{Tag, Vtable};
use core::marker::PhantomData;
use vstd::pervasive::unreached;

verus! {

/// The marker type of the erased handle form.
#[derive(Clone, Copy, Debug)]
pub struct PtyPtr;

impl CanObj for PtyPtr {
    open spec fn tag() -> Tag {
        Tag::Petty
    }

    fn exec_tag() -> (t: Tag) {
        Tag::Petty
    }

    /// Route `get_item` to the receiver's concrete type.
    fn get_item(vm: &mut Vm, obj: &Obj<PtyPtr>, key: &str) -> (r: Obj<PtyPtr>) {
        match obj.table.tag {
            Tag::Null => <Null as CanObj>::get_item(vm, obj, key),
            Tag::Int => <i64 as CanObj>::get_item(vm, obj, key),
            Tag::Str => <String as CanObj>::get_item(vm, obj, key),
            Tag::Petty => unreached(),
        }
    }

    /// Route `set_item` to the receiver's concrete type.
    fn set_item(vm: &mut Vm, obj: &Obj<PtyPtr>, key: &str, val: &Obj<PtyPtr>) {
        match obj.table.tag {
            Tag::Null => <Null as CanObj>::set_item(vm, obj, key, val),
            Tag::Int => <i64 as CanObj>::set_item(vm, obj, key, val),
            Tag::Str => <String as CanObj>::set_item(vm, obj, key, val),
            Tag::Petty => unreached(),
        }
    }

    /// Route `call` to the receiver's concrete type.
    fn call(vm: &mut Vm, obj: &Obj<PtyPtr>) -> (r: Obj<PtyPtr>) {
        match obj.table.tag {
            Tag::Null => <Null as CanObj>::call(vm, obj),
            Tag::Int => <i64 as CanObj>::call(vm, obj),
            Tag::Str => <String as CanObj>::call(vm, obj),
            Tag::Petty => unreached(),
        }
    }

    /// Route the binary hooks through the shared dispatcher.
    fn __add__(vm: &mut Vm, lhs: &Obj<PtyPtr>, rhs: &Obj<PtyPtr>) -> (r: Obj<PtyPtr>)
        ensures
            binop_ens(Op::Add, *old(vm), *final(vm), lhs@, rhs@, r@),
            lhs@.tag == Tag::Int ==> final(vm).heap == old(vm).heap,
    {
        binop(vm, Op::Add, lhs, rhs)
    }

    fn __sub__(vm: &mut Vm, lhs: &Obj<PtyPtr>, rhs: &Obj<PtyPtr>) -> (r: Obj<PtyPtr>)
        ensures
            binop_ens(Op::Sub, *old(vm), *final(vm), lhs@, rhs@, r@),
            lhs@.tag == Tag::Int ==> final(vm).heap == old(vm).heap,
    {
        binop(vm, Op::Sub, lhs, rhs)
    }

    fn __mul__(vm: &mut Vm, lhs: &Obj<PtyPtr>, rhs: &Obj<PtyPtr>) -> (r: Obj<PtyPtr>)
        ensures
            binop_ens(Op::Mul, *old(vm), *final(vm), lhs@, rhs@, r@),
            lhs@.tag == Tag::Int ==> final(vm).heap == old(vm).heap,
    {
        binop(vm, Op::Mul, lhs, rhs)
    }

    fn __div__(vm: &mut Vm, lhs: &Obj<PtyPtr>, rhs: &Obj<PtyPtr>) -> (r: Obj<PtyPtr>)
        ensures
            binop_ens(Op::Div, *old(vm), *final(vm), lhs@, rhs@, r@),
            lhs@.tag == Tag::Int ==> final(vm).heap == old(vm).heap,
    {
        binop(vm, Op::Div, lhs, rhs)
    }
}

/// The capability dispatcher for the binary hooks: look at the left
/// operand's type identity and run that type's operation.  Pairs no type
/// supports report a not-implemented condition and return the null handle.
pub fn binop(vm: &mut Vm, op: Op, lhs: &Obj<PtyPtr>, rhs: &Obj<PtyPtr>) -> (r: Obj<PtyPtr>)
    requires
        old(vm).wf(),
        lhs@.wf_in(old(vm).heap),
        rhs@.wf_in(old(vm).heap),
        lhs@.slot is Boxed ==> old(vm).heap.cells()[lhs@.slot->Boxed_0 as int].count
            < usize::MAX,
        rhs@.slot is Boxed ==> old(vm).heap.cells()[rhs@.slot->Boxed_0 as int].count
            < usize::MAX,
    ensures
        final(vm).wf(),
        r@.wf_in(final(vm).heap),
        r@.owned,
        binop_ens(op, *old(vm), *final(vm), lhs@, rhs@, r@),
        lhs@.tag == Tag::Int ==> final(vm).heap == old(vm).heap,
{
    match lhs.table.tag {
        Tag::Int => crate::core_types::int_binop(vm, op, lhs, rhs),
        Tag::Str => match op {
            Op::Add => crate::core_types::str_add(vm, lhs, rhs),
            Op::Mul => crate::core_types::str_mul(vm, lhs, rhs),
            _ => {
                vm.raise_not_implemented();
                null_object()
            },
        },
        Tag::Null => {
            vm.raise_not_implemented();
            null_object()
        },
        Tag::Petty => unreached(),
    }
}

impl Obj<PtyPtr> {
    /// Recover the concrete type of an owning erased handle.  On a match
    /// the very same handle comes back under its concrete type; on a
    /// mismatch the result is empty and the handle, which this call
    /// consumed, is dropped.
    pub fn downcast<T: CanObj>(self, vm: &mut Vm) -> (r: Option<Obj<T>>)
        requires
            old(vm).wf(),
            self.wf(old(vm).heap),
            self@.owned,
        ensures
            final(vm).wf(),
            final(vm).not_implemented == old(vm).not_implemented,
            r is Some <==> self@.tag == T::tag(),
            match r {
                Some(obj) => obj@ == self@ && final(vm).heap == old(vm).heap,
                None => {
                    &&& self@.slot is Boxed ==> final(vm).heap.cells() == spec_drop_step(
                        old(vm).heap.cells(),
                        self@.slot->Boxed_0 as int,
                    )
                    &&& !(self@.slot is Boxed) ==> final(vm).heap == old(vm).heap
                },
            },
    {
        if self.is_type::<T>() {
            Some(Obj { slot: self.slot, table: self.table, owned: self.owned, _t: PhantomData })
        } else {
            self.drop(vm);
            None
        }
    }

    /// Recover the concrete type of a handle without consuming it.  The
    /// result is a borrowed view: it shares the slot, owns no unit of the
    /// count, and cannot be dropped.
    pub fn downcast_ref<T: CanObj>(&self) -> (r: Option<Obj<T>>)
        ensures
            r is Some <==> self@.tag == T::tag(),
            match r {
                Some(obj) => obj@.slot == self@.slot && obj@.tag == self@.tag
                    && !obj@.owned,
                None => true,
            },
    {
        if self.is_type::<T>() {
            Some(Obj { slot: self.slot, table: self.table, owned: Ghost(false), _t: PhantomData })
        } else {
            None
        }
    }

    /// Reinterpret an owning erased handle under the concrete type `T`
    /// without a runtime test.  The caller proves the identity instead:
    /// this is for call sites where the type is already statically known,
    /// such as a type's own capability implementation looking at its first
    /// operand.
    pub fn downcast_unchecked<T: CanObj>(self) -> (r: Obj<T>)
        requires
            self@.tag == T::tag(),
        ensures
            r@ == self@,
    {
        Obj { slot: self.slot, table: self.table, owned: self.owned, _t: PhantomData }
    }

    /// Reinterpret a handle under the concrete type `T` without a runtime
    /// test and without consuming it; the result is a borrowed view.
    pub fn downcast_ref_unchecked<T: CanObj>(&self) -> (r: Obj<T>)
        requires
            self@.tag == T::tag(),
        ensures
            r@.slot == self@.slot,
            r@.tag == self@.tag,
            !r@.owned,
    {
        Obj { slot: self.slot, table: self.table, owned: Ghost(false), _t: PhantomData }
    }
}

impl ObjImpl<PtyPtr> for Obj<PtyPtr> {
    open spec fn new_ens(vm0: Vm, vm1: Vm, value: PtyPtr, obj: Self) -> bool {
        &&& vm1 == vm0
        &&& obj@.slot == Slot::Empty
        &&& obj@.tag == Tag::Null
        &&& obj@.owned
    }

    open spec fn value_req(&self, vm: Vm) -> bool {
        true
    }

    open spec fn value_ens(&self, vm: Vm, r: PtyPtr) -> bool {
        true
    }

    /// There is no erased value to store: asking for a fresh erased handle
    /// yields a null handle.
    fn new(value: PtyPtr, vm: &mut Vm) -> (obj: Self) {
        Obj::<Null>::new(Null, vm).cast_petty()
    }

    fn value<'a>(&'a self, vm: &'a Vm) -> (r: &'a PtyPtr) {
        &PtyPtr
    }
}

} // verus!
