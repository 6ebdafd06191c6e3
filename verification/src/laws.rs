//! The substrate's governing properties, stated once over all inputs and
//! proved against the public contracts alone.

use vstd::prelude::*;

use crate::core_types::{binop_result, BinOut, Null, Op, PtyStr};
use crate::object::{Obj, ObjImpl, Slot};
use crate::ptyptr::{binop, PtyPtr};
use crate::vm::{sat_inc, HeapCell, Vm};
use crate::vtable::Tag;

verus! {

/// Inline round-trip: wrapping any 64-bit integer and reading it back
/// yields the integer unchanged, and the context — the heap included — is
/// exactly as it was: inline storage allocates nothing.
pub fn inline_round_trip(vm: &mut Vm, x: i64) -> (r: i64)
    requires
        old(vm).wf(),
    ensures
        r == x,
        *final(vm) == *old(vm),
{
    let obj = Obj::<i64>::new(x, vm);
    let r = *obj.value(vm);
    r
}

/// Zero-sized round-trip: wrapping the null value and reading it back
/// yields the default instance, and the context — the heap included — is
/// exactly as it was: zero-sized storage touches no memory at all.
pub fn empty_round_trip(vm: &mut Vm) -> (r: Null)
    requires
        old(vm).wf(),
    ensures
        *final(vm) == *old(vm),
{
    let obj = Obj::<Null>::new(Null, vm);
    let r = *obj.value(vm);
    r
}

/// Downcast soundness, matching direction: erasing a handle and recovering
/// it under its own concrete type always succeeds and preserves the value;
/// asking for a different concrete type on the way is always empty.
pub fn downcast_sound(vm: &mut Vm, x: i64)
    requires
        old(vm).wf(),
    ensures
        *final(vm) == *old(vm),
{
    let obj = Obj::<i64>::new(x, vm);
    let erased = obj.cast_petty();
    let wrong = erased.downcast_ref::<PtyStr>();
    assert(wrong is None);
    let back = erased.downcast::<i64>(vm);
    match back {
        Some(b) => {
            let v = *b.value(vm);
            assert(v == x);
        },
        None => {
            proof {
                assert(false);
            }
        },
    }
}

/// Downcast soundness, mismatching direction: a handle built from one
/// concrete type never downcasts to another.  The consumed handle is
/// dropped, so its cell ends freed after its one finalization.
pub fn downcast_mismatch(vm: &mut Vm, text: String)
    requires
        old(vm).wf(),
    ensures
        final(vm).wf(),
        final(vm).not_implemented == old(vm).not_implemented,
        final(vm).heap.cells() == old(vm).heap.cells().push(
            HeapCell { count: 0, payload: None },
        ),
{
    let obj = Obj::<PtyStr>::new(text, vm);
    let erased = obj.cast_petty();
    let wrong = erased.downcast::<i64>(vm);
    assert(wrong is None);
    proof {
        assert(vm.heap.cells() =~= old(vm).heap.cells().push(
            HeapCell { count: 0, payload: None },
        ));
    }
}

/// Clone/drop balance: one handle cloned `k` times needs exactly `k + 1`
/// drops; through all but the last the payload stays in place, and the last
/// drop — and only it — finalizes the cell.  The heap ends with the one
/// cell freed and nothing else changed.
pub fn clone_drop_balance(vm: &mut Vm, value: String, k: usize)
    requires
        old(vm).wf(),
        k < usize::MAX,
    ensures
        final(vm).wf(),
        final(vm).not_implemented == old(vm).not_implemented,
        final(vm).heap.cells() == old(vm).heap.cells().push(
            HeapCell { count: 0, payload: None },
        ),
{
    let ghost h0 = vm.heap.cells();
    let first = Obj::<PtyStr>::new(value, vm);
    proof {
        assert(vm.heap.cells() =~= h0.push(
            HeapCell { count: 1, payload: Some(value) },
        ));
    }
    let mut copies: Vec<Obj<PtyStr>> = Vec::new();
    let mut live: usize = 1;
    while live < k + 1
        invariant
            vm.wf(),
            1 <= live <= k + 1,
            k < usize::MAX,
            copies.len() + 1 == live,
            vm.not_implemented == old(vm).not_implemented,
            first@.slot matches Slot::Boxed(ix) && ix == h0.len(),
            first@.tag == Tag::Str,
            first@.owned,
            vm.heap.cells() == h0.push(HeapCell { count: live, payload: Some(value) }),
            forall|q: int|
                0 <= q < copies.len() ==> (#[trigger] copies@[q])@.slot == first@.slot
                    && copies@[q]@.tag == Tag::Str && copies@[q]@.owned,
        decreases k + 1 - live,
    {
        let c = first.clone(vm);
        copies.push(c);
        live = live + 1;
        proof {
            assert(vm.heap.cells() =~= h0.push(
                HeapCell { count: live, payload: Some(value) },
            ));
        }
    }
    while copies.len() > 0
        invariant
            vm.wf(),
            vm.not_implemented == old(vm).not_implemented,
            copies.len() + 1 == live,
            live <= k + 1,
            k < usize::MAX,
            first@.slot matches Slot::Boxed(ix) && ix == h0.len(),
            first@.tag == Tag::Str,
            first@.owned,
            vm.heap.cells() == h0.push(HeapCell { count: live, payload: Some(value) }),
            forall|q: int|
                0 <= q < copies.len() ==> (#[trigger] copies@[q])@.slot == first@.slot
                    && copies@[q]@.tag == Tag::Str && copies@[q]@.owned,
        decreases copies.len(),
    {
        let ghost before = copies@;
        let c = match copies.pop() {
            Some(c) => c,
            None => vstd::pervasive::unreached(),
        };
        proof {
            assert(c == before[before.len() - 1]);
            assert(c@.slot == first@.slot && c@.tag == Tag::Str && c@.owned);
        }
        c.drop(vm);
        live = live - 1;
        proof {
            assert(vm.heap.cells() =~= h0.push(
                HeapCell { count: live, payload: Some(value) },
            ));
        }
    }
    first.drop(vm);
    proof {
        assert(vm.heap.cells() =~= h0.push(HeapCell { count: 0, payload: None }));
    }
}

/// The wrapping sum of the integers below `n`.
pub open spec fn wrap_sum(n: nat) -> i64
    decreases n,
{
    if n == 0 {
        0
    } else {
        wrap_sum((n - 1) as nat).wrapping_add((n - 1) as i64)
    }
}

/// Summing integers through the arithmetic capability performs no heap
/// allocation at all, however many terms there are: the context comes back
/// exactly as it was, and the result carries the wrapping sum.
pub fn sum_ints(vm: &mut Vm, n: u32) -> (r: Obj<PtyPtr>)
    requires
        old(vm).wf(),
    ensures
        *final(vm) == *old(vm),
        r@.slot == Slot::Inline(wrap_sum(n as nat)),
        r@.owned,
{
    let mut acc = Obj::<i64>::new(0, vm).cast_petty();
    let mut i: u32 = 0;
    while i < n
        invariant
            vm.wf(),
            *vm == *old(vm),
            i <= n,
            acc@.slot == Slot::Inline(wrap_sum(i as nat)),
            acc@.tag == Tag::Int,
            acc@.owned,
        decreases n - i,
    {
        let term = Obj::<i64>::new(i as i64, vm).cast_petty();
        acc = binop(vm, Op::Add, &acc, &term);
        i = i + 1;
    }
    acc
}

/// An unsupported capability never aborts: arithmetic on a type without
/// that operation returns the harmless null handle and reports exactly one
/// not-implemented condition to the context, leaving the heap untouched.
pub fn unsupported_reports(vm: &mut Vm, lhs: &Obj<PtyPtr>, rhs: &Obj<PtyPtr>, op: Op) -> (r:
    Obj<PtyPtr>)
    requires
        old(vm).wf(),
        lhs@.wf_in(old(vm).heap),
        rhs@.wf_in(old(vm).heap),
        lhs@.slot is Boxed ==> old(vm).heap.cells()[lhs@.slot->Boxed_0 as int].count
            < usize::MAX,
        rhs@.slot is Boxed ==> old(vm).heap.cells()[rhs@.slot->Boxed_0 as int].count
            < usize::MAX,
        binop_result(op, lhs@.value_in(old(vm).heap), rhs@.value_in(old(vm).heap))
            is NotImpl,
    ensures
        final(vm).heap == old(vm).heap,
        final(vm).not_implemented == sat_inc(old(vm).not_implemented),
        r@.slot == Slot::Empty,
        r@.tag == Tag::Null,
{
    binop(vm, op, lhs, rhs)
}

} // verus!
