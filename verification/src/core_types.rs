//! The built-in storable types and their capability implementations: the
//! zero-sized null type, the inline 64-bit integer, and the heap-boxed
//! string.
//!
//! The integer hooks combine the two operand values with wrapping
//! arithmetic; division reports a condition instead of a result when the
//! divisor is zero or the quotient is unrepresentable.  String addition is
//! concatenation, short-circuiting into a clone when either operand is
//! empty; string multiplication repeats the text, clamping a negative or
//! unrepresentable count to zero.

use vstd::prelude::*;

use crate::object::{null_object, CanObj, Obj, ObjImpl, ObjV, Slot, Value, ValueObj, ZeroObj};
use crate::ptyptr::PtyPtr;
use crate::vm::{heap_extends, sat_inc, spec_incr, HeapCell, Vm};
use crate::vtable::{Tag, Vtable};
use core::marker::PhantomData;
use vstd::pervasive::unreached;
use vstd::string::StrSliceExecFns;
use vstd::string::StringExecFns;

verus! {

/// The null type: zero-sized, stored nowhere.
#[derive(Clone, Copy, Debug)]
pub struct Null;

/// The built-in integer type, stored inline in the slot.
pub type Int = i64;

/// The built-in string type, stored in a counted heap cell.
pub type PtyStr = String;

/// A binary capability operation.
#[derive(Clone, Copy, Debug, PartialEq, Eq, Structural)]
pub enum Op {
    Add,
    Sub,
    Mul,
    Div,
}

/// What a binary operation yields on two given values: a value, or the
/// not-implemented condition.
pub enum BinOut {
    Val(Value),
    NotImpl,
}

/// A repetition count, as the string type reads it from an integer
/// operand: negative or unrepresentable counts clamp to zero.
pub open spec fn clamp_count(n: i64) -> nat {
    if 0 <= n <= usize::MAX {
        n as nat
    } else {
        0
    }
}

/// The text `s` repeated `n` times.
pub open spec fn str_repeat(s: Seq<char>, n: nat) -> Seq<char>
    decreases n,
{
    if n == 0 {
        Seq::empty()
    } else {
        str_repeat(s, (n - 1) as nat) + s
    }
}

/// The complete semantics of the binary hooks on the built-in types.
/// Every pair not listed reports not-implemented; so does a division whose
/// result does not exist or does not fit.
pub open spec fn binop_result(op: Op, a: Value, b: Value) -> BinOut {
    match (op, a, b) {
        (Op::Add, Value::Int(x), Value::Int(y)) => BinOut::Val(Value::Int(x.wrapping_add(y))),
        (Op::Sub, Value::Int(x), Value::Int(y)) => BinOut::Val(Value::Int(x.wrapping_sub(y))),
        (Op::Mul, Value::Int(x), Value::Int(y)) => BinOut::Val(Value::Int(x.wrapping_mul(y))),
        (Op::Div, Value::Int(x), Value::Int(y)) => match x.checked_div(y) {
            Some(q) => BinOut::Val(Value::Int(q)),
            None => BinOut::NotImpl,
        },
        (Op::Add, Value::Str(s), Value::Str(t)) => BinOut::Val(Value::Str(s + t)),
        (Op::Mul, Value::Str(s), Value::Int(n)) => BinOut::Val(
            Value::Str(str_repeat(s, clamp_count(n))),
        ),
        _ => BinOut::NotImpl,
    }
}

/// What every arithmetic entry point promises exactly: the heap only ever
/// extends, and the outcome follows `binop_result` on the operands' values —
/// the computed value with no condition reported, or the null handle with
/// exactly one not-implemented report and the heap untouched.
pub open spec fn binop_ens(op: Op, vm0: Vm, vm1: Vm, lhs: ObjV, rhs: ObjV, r: ObjV) -> bool {
    &&& heap_extends(vm0.heap, vm1.heap)
    &&& match binop_result(op, lhs.value_in(vm0.heap), rhs.value_in(vm0.heap)) {
        BinOut::Val(v) => r.value_in(vm1.heap) == v && vm1.not_implemented
            == vm0.not_implemented,
        BinOut::NotImpl => r.slot == Slot::Empty && r.tag == Tag::Null
            && vm1.not_implemented == sat_inc(vm0.not_implemented) && vm1.heap == vm0.heap,
    }
}

/// The integer binary hooks: both operands are read inline, the result is
/// a fresh inline handle, and the heap is never touched.
pub fn int_binop(vm: &mut Vm, op: Op, lhs: &Obj<PtyPtr>, rhs: &Obj<PtyPtr>) -> (r: Obj<
    PtyPtr,
>)
    requires
        old(vm).wf(),
        lhs@.wf_in(old(vm).heap),
        rhs@.wf_in(old(vm).heap),
        lhs@.tag == Tag::Int,
    ensures
        final(vm).wf(),
        final(vm).heap == old(vm).heap,
        r@.wf_in(final(vm).heap),
        r@.owned,
        match binop_result(op, lhs@.value_in(old(vm).heap), rhs@.value_in(old(vm).heap)) {
            BinOut::Val(v) => r@.value_in(final(vm).heap) == v && final(vm).not_implemented == old(vm).not_implemented,
            BinOut::NotImpl => r@.slot == Slot::Empty && r@.tag == Tag::Null
                && final(vm).not_implemented == sat_inc(old(vm).not_implemented),
        },
{
    let x: i64 = if let Slot::Inline(x) = lhs.slot {
        x
    } else {
        unreached()
    };
    let y: i64 = match rhs.slot {
        Slot::Inline(y) => y,
        _ => {
            vm.raise_not_implemented();
            return null_object();
        },
    };
    let z: i64 = match op {
        Op::Add => x.wrapping_add(y),
        Op::Sub => x.wrapping_sub(y),
        Op::Mul => x.wrapping_mul(y),
        Op::Div => match x.checked_div(y) {
            Some(q) => q,
            None => {
                vm.raise_not_implemented();
                return null_object();
            },
        },
    };
    Obj {
        slot: Slot::Inline(z),
        table: Vtable { tag: Tag::Int },
        owned: Ghost(true),
        _t: PhantomData,
    }
}

/// String addition: concatenation.  An empty operand short-circuits into a
/// clone of the other handle; otherwise the concatenation goes into a
/// fresh cell.  A right operand that is not a string reports
/// not-implemented.
pub fn str_add(vm: &mut Vm, lhs: &Obj<PtyPtr>, rhs: &Obj<PtyPtr>) -> (r: Obj<PtyPtr>)
    requires
        old(vm).wf(),
        lhs@.wf_in(old(vm).heap),
        rhs@.wf_in(old(vm).heap),
        lhs@.tag == Tag::Str,
        lhs@.slot is Boxed ==> old(vm).heap.cells()[lhs@.slot->Boxed_0 as int].count
            < usize::MAX,
        rhs@.slot is Boxed ==> old(vm).heap.cells()[rhs@.slot->Boxed_0 as int].count
            < usize::MAX,
    ensures
        final(vm).wf(),
        crate::vm::heap_extends(old(vm).heap, final(vm).heap),
        r@.wf_in(final(vm).heap),
        r@.owned,
        match binop_result(Op::Add, lhs@.value_in(old(vm).heap), rhs@.value_in(old(vm).heap)) {
            BinOut::Val(v) => r@.value_in(final(vm).heap) == v && final(vm).not_implemented == old(vm).not_implemented,
            BinOut::NotImpl => r@.slot == Slot::Empty && r@.tag == Tag::Null
                && final(vm).not_implemented == sat_inc(old(vm).not_implemented) && final(vm).heap == old(vm).heap,
        },
        rhs@.tag == Tag::Str && lhs@.value_in(old(vm).heap)->Str_0.len() == 0
            ==> final(vm).heap.cells() == spec_incr(
            old(vm).heap.cells(),
            rhs@.slot->Boxed_0 as int,
        ) && r@.slot == rhs@.slot,
        rhs@.tag == Tag::Str && lhs@.value_in(old(vm).heap)->Str_0.len() > 0 && rhs@.value_in(
            old(vm).heap,
        )->Str_0.len() == 0 ==> final(vm).heap.cells() == spec_incr(
            old(vm).heap.cells(),
            lhs@.slot->Boxed_0 as int,
        ) && r@.slot == lhs@.slot,
        rhs@.tag == Tag::Str && lhs@.value_in(old(vm).heap)->Str_0.len() > 0 && rhs@.value_in(
            old(vm).heap,
        )->Str_0.len() > 0 ==> final(vm).heap.cells() == old(vm).heap.cells().push(
            HeapCell {
                count: 1,
                payload: Some(final(vm).heap.cells().last().payload->Some_0),
            },
        ) && (r@.slot matches Slot::Boxed(ix) && ix == old(vm).heap.cells().len()),
{
    let lhs_ix: usize = if let Slot::Boxed(ix) = lhs.slot {
        ix
    } else {
        unreached()
    };
    let rhs_ix: usize = match rhs.slot {
        Slot::Boxed(ix) if rhs.table.tag == Tag::Str => ix,
        _ => {
            vm.raise_not_implemented();
            return null_object();
        },
    };
    if vm.heap.payload(lhs_ix).as_str().unicode_len() == 0 {
        vm.heap.incr(rhs_ix);
        proof {
            assert(lhs@.value_in(old(vm).heap)->Str_0 + rhs@.value_in(old(vm).heap)->Str_0
                =~= rhs@.value_in(old(vm).heap)->Str_0);
        }
        Obj { slot: rhs.slot, table: rhs.table, owned: Ghost(true), _t: PhantomData }
    } else if vm.heap.payload(rhs_ix).as_str().unicode_len() == 0 {
        vm.heap.incr(lhs_ix);
        proof {
            assert(lhs@.value_in(old(vm).heap)->Str_0 + rhs@.value_in(old(vm).heap)->Str_0
                =~= lhs@.value_in(old(vm).heap)->Str_0);
        }
        Obj { slot: lhs.slot, table: lhs.table, owned: Ghost(true), _t: PhantomData }
    } else {
        let mut joined = String::new();
        joined.append(vm.heap.payload(lhs_ix).as_str());
        joined.append(vm.heap.payload(rhs_ix).as_str());
        let ix = vm.heap.alloc_cell(joined);
        Obj {
            slot: Slot::Boxed(ix),
            table: Vtable { tag: Tag::Str },
            owned: Ghost(true),
            _t: PhantomData,
        }
    }
}

/// String multiplication: repetition.  The count comes from an integer
/// right operand, clamped to zero when negative or unrepresentable; an
/// empty left operand short-circuits into a clone of itself; any other
/// right operand reports not-implemented.
pub fn str_mul(vm: &mut Vm, lhs: &Obj<PtyPtr>, rhs: &Obj<PtyPtr>) -> (r: Obj<PtyPtr>)
    requires
        old(vm).wf(),
        lhs@.wf_in(old(vm).heap),
        rhs@.wf_in(old(vm).heap),
        lhs@.tag == Tag::Str,
        lhs@.slot is Boxed ==> old(vm).heap.cells()[lhs@.slot->Boxed_0 as int].count
            < usize::MAX,
    ensures
        final(vm).wf(),
        crate::vm::heap_extends(old(vm).heap, final(vm).heap),
        r@.wf_in(final(vm).heap),
        r@.owned,
        match binop_result(Op::Mul, lhs@.value_in(old(vm).heap), rhs@.value_in(old(vm).heap)) {
            BinOut::Val(v) => r@.value_in(final(vm).heap) == v && final(vm).not_implemented == old(vm).not_implemented,
            BinOut::NotImpl => r@.slot == Slot::Empty && r@.tag == Tag::Null
                && final(vm).not_implemented == sat_inc(old(vm).not_implemented) && final(vm).heap == old(vm).heap,
        },
        rhs@.tag == Tag::Int && lhs@.value_in(old(vm).heap)->Str_0.len() == 0
            ==> final(vm).heap.cells() == spec_incr(
            old(vm).heap.cells(),
            lhs@.slot->Boxed_0 as int,
        ) && r@.slot == lhs@.slot,
        rhs@.tag == Tag::Int && lhs@.value_in(old(vm).heap)->Str_0.len() > 0 ==> final(vm).heap.cells() == old(vm).heap.cells().push(
            HeapCell {
                count: 1,
                payload: Some(final(vm).heap.cells().last().payload->Some_0),
            },
        ) && (r@.slot matches Slot::Boxed(ix) && ix == old(vm).heap.cells().len()),
{
    let lhs_ix: usize = if let Slot::Boxed(ix) = lhs.slot {
        ix
    } else {
        unreached()
    };
    let n: i64 = match rhs.slot {
        Slot::Inline(n) => n,
        _ => {
            vm.raise_not_implemented();
            return null_object();
        },
    };
    if vm.heap.payload(lhs_ix).as_str().unicode_len() == 0 {
        vm.heap.incr(lhs_ix);
        proof {
            let s = lhs@.value_in(old(vm).heap)->Str_0;
            assert(s =~= Seq::<char>::empty());
            lemma_str_repeat_empty(clamp_count(n));
            assert(str_repeat(s, clamp_count(n)) =~= s);
        }
        Obj { slot: lhs.slot, table: lhs.table, owned: Ghost(true), _t: PhantomData }
    } else {
        let count: usize = if n < 0 {
            0
        } else if (n as u64) <= (usize::MAX as u64) {
            n as usize
        } else {
            0
        };
        proof {
            assert(count as nat == clamp_count(n));
        }
        let mut repeated = String::new();
        let mut done: usize = 0;
        while done < count
            invariant
                *vm == *old(vm),
                vm.wf(),
                done <= count,
                vm.heap.live_at(lhs_ix as int),
                repeated@ == str_repeat(
                    vm.heap.cells()[lhs_ix as int].payload->Some_0@,
                    done as nat,
                ),
            decreases count - done,
        {
            repeated.append(vm.heap.payload(lhs_ix).as_str());
            done = done + 1;
        }
        let ix = vm.heap.alloc_cell(repeated);
        Obj {
            slot: Slot::Boxed(ix),
            table: Vtable { tag: Tag::Str },
            owned: Ghost(true),
            _t: PhantomData,
        }
    }
}

/// Repeating the empty text yields the empty text.
pub proof fn lemma_str_repeat_empty(n: nat)
    ensures
        str_repeat(Seq::<char>::empty(), n) =~= Seq::<char>::empty(),
    decreases n,
{
    if n > 0 {
        lemma_str_repeat_empty((n - 1) as nat);
    }
}

impl CanObj for Null {
    open spec fn tag() -> Tag {
        Tag::Null
    }

    fn exec_tag() -> (t: Tag) {
        Tag::Null
    }

    /// Null supports no arithmetic: every hook reports the condition and
    /// returns the placeholder.
    fn __add__(vm: &mut Vm, lhs: &Obj<PtyPtr>, rhs: &Obj<PtyPtr>) -> (r: Obj<PtyPtr>)
        ensures
            binop_ens(Op::Add, *old(vm), *final(vm), lhs@, rhs@, r@),
            final(vm).heap == old(vm).heap,
    {
        vm.raise_not_implemented();
        null_object()
    }

    fn __sub__(vm: &mut Vm, lhs: &Obj<PtyPtr>, rhs: &Obj<PtyPtr>) -> (r: Obj<PtyPtr>)
        ensures
            binop_ens(Op::Sub, *old(vm), *final(vm), lhs@, rhs@, r@),
            final(vm).heap == old(vm).heap,
    {
        vm.raise_not_implemented();
        null_object()
    }

    fn __mul__(vm: &mut Vm, lhs: &Obj<PtyPtr>, rhs: &Obj<PtyPtr>) -> (r: Obj<PtyPtr>)
        ensures
            binop_ens(Op::Mul, *old(vm), *final(vm), lhs@, rhs@, r@),
            final(vm).heap == old(vm).heap,
    {
        vm.raise_not_implemented();
        null_object()
    }

    fn __div__(vm: &mut Vm, lhs: &Obj<PtyPtr>, rhs: &Obj<PtyPtr>) -> (r: Obj<PtyPtr>)
        ensures
            binop_ens(Op::Div, *old(vm), *final(vm), lhs@, rhs@, r@),
            final(vm).heap == old(vm).heap,
    {
        vm.raise_not_implemented();
        null_object()
    }
}

impl ValueObj for Null {
    proof fn value_strategy() {
    }
}

impl ZeroObj for Null {
    proof fn zero_strategy() {
    }
}

impl CanObj for Int {
    open spec fn tag() -> Tag {
        Tag::Int
    }

    fn exec_tag() -> (t: Tag) {
        Tag::Int
    }

    /// Integer addition: the operands' wrapping sum.
    fn __add__(vm: &mut Vm, lhs: &Obj<PtyPtr>, rhs: &Obj<PtyPtr>) -> (r: Obj<PtyPtr>)
        ensures
            binop_ens(Op::Add, *old(vm), *final(vm), lhs@, rhs@, r@),
            final(vm).heap == old(vm).heap,
    {
        int_binop(vm, Op::Add, lhs, rhs)
    }

    /// Integer subtraction: the operands' wrapping difference.
    fn __sub__(vm: &mut Vm, lhs: &Obj<PtyPtr>, rhs: &Obj<PtyPtr>) -> (r: Obj<PtyPtr>)
        ensures
            binop_ens(Op::Sub, *old(vm), *final(vm), lhs@, rhs@, r@),
            final(vm).heap == old(vm).heap,
    {
        int_binop(vm, Op::Sub, lhs, rhs)
    }

    /// Integer multiplication: the operands' wrapping product.
    fn __mul__(vm: &mut Vm, lhs: &Obj<PtyPtr>, rhs: &Obj<PtyPtr>) -> (r: Obj<PtyPtr>)
        ensures
            binop_ens(Op::Mul, *old(vm), *final(vm), lhs@, rhs@, r@),
            final(vm).heap == old(vm).heap,
    {
        int_binop(vm, Op::Mul, lhs, rhs)
    }

    /// Integer division, reporting a condition when no quotient fits.
    fn __div__(vm: &mut Vm, lhs: &Obj<PtyPtr>, rhs: &Obj<PtyPtr>) -> (r: Obj<PtyPtr>)
        ensures
            binop_ens(Op::Div, *old(vm), *final(vm), lhs@, rhs@, r@),
            final(vm).heap == old(vm).heap,
    {
        int_binop(vm, Op::Div, lhs, rhs)
    }
}

impl ValueObj for Int {
    proof fn value_strategy() {
    }
}

impl CanObj for PtyStr {
    open spec fn tag() -> Tag {
        Tag::Str
    }

    fn exec_tag() -> (t: Tag) {
        Tag::Str
    }

    /// String addition: concatenation with empty-operand short-circuits.
    fn __add__(vm: &mut Vm, lhs: &Obj<PtyPtr>, rhs: &Obj<PtyPtr>) -> (r: Obj<PtyPtr>)
        ensures
            binop_ens(Op::Add, *old(vm), *final(vm), lhs@, rhs@, r@),
    {
        str_add(vm, lhs, rhs)
    }

    /// Strings do not subtract: the condition is reported and the
    /// placeholder returned.
    fn __sub__(vm: &mut Vm, lhs: &Obj<PtyPtr>, rhs: &Obj<PtyPtr>) -> (r: Obj<PtyPtr>)
        ensures
            binop_ens(Op::Sub, *old(vm), *final(vm), lhs@, rhs@, r@),
            final(vm).heap == old(vm).heap,
    {
        vm.raise_not_implemented();
        null_object()
    }

    /// String multiplication: repetition with a clamped count.
    fn __mul__(vm: &mut Vm, lhs: &Obj<PtyPtr>, rhs: &Obj<PtyPtr>) -> (r: Obj<PtyPtr>)
        ensures
            binop_ens(Op::Mul, *old(vm), *final(vm), lhs@, rhs@, r@),
    {
        str_mul(vm, lhs, rhs)
    }

    /// Strings do not divide: the condition is reported and the placeholder
    /// returned.
    fn __div__(vm: &mut Vm, lhs: &Obj<PtyPtr>, rhs: &Obj<PtyPtr>) -> (r: Obj<PtyPtr>)
        ensures
            binop_ens(Op::Div, *old(vm), *final(vm), lhs@, rhs@, r@),
            final(vm).heap == old(vm).heap,
    {
        vm.raise_not_implemented();
        null_object()
    }
}

impl ObjImpl<Int> for Obj<Int> {
    open spec fn new_ens(vm0: Vm, vm1: Vm, value: Int, obj: Self) -> bool {
        &&& vm1 == vm0
        &&& obj@.slot == Slot::Inline(value)
        &&& obj@.tag == Tag::Int
        &&& obj@.owned
    }

    open spec fn value_req(&self, vm: Vm) -> bool {
        self.wf(vm.heap)
    }

    open spec fn value_ens(&self, vm: Vm, r: Int) -> bool {
        self@.slot == Slot::Inline(r)
    }

    /// Inline storage: the value's bits go straight into the slot; no heap
    /// cell and no count exist.
    fn new(value: Int, vm: &mut Vm) -> (obj: Self) {
        Obj {
            slot: Slot::Inline(value),
            table: Vtable::new::<Int>(),
            owned: Ghost(true),
            _t: PhantomData,
        }
    }

    fn value<'a>(&'a self, vm: &'a Vm) -> (r: &'a Int) {
        if let Slot::Inline(x) = &self.slot {
            x
        } else {
            unreached()
        }
    }
}

impl ObjImpl<PtyStr> for Obj<PtyStr> {
    open spec fn new_ens(vm0: Vm, vm1: Vm, value: PtyStr, obj: Self) -> bool {
        &&& vm1.heap.cells() == vm0.heap.cells().push(
            HeapCell { count: 1, payload: Some(value) },
        )
        &&& vm1.not_implemented == vm0.not_implemented
        &&& (obj@.slot matches Slot::Boxed(ix) && ix == vm0.heap.cells().len())
        &&& obj@.tag == Tag::Str
        &&& obj@.owned
    }

    open spec fn value_req(&self, vm: Vm) -> bool {
        self.wf(vm.heap)
    }

    open spec fn value_ens(&self, vm: Vm, r: PtyStr) -> bool {
        vm.heap.cells()[self@.slot->Boxed_0 as int].payload == Some(r)
    }

    /// Boxed storage: the value goes into a fresh heap cell whose count
    /// starts at one.
    fn new(value: PtyStr, vm: &mut Vm) -> (obj: Self) {
        let ix = vm.heap.alloc_cell(value);
        Obj {
            slot: Slot::Boxed(ix),
            table: Vtable::new::<PtyStr>(),
            owned: Ghost(true),
            _t: PhantomData,
        }
    }

    fn value<'a>(&'a self, vm: &'a Vm) -> (r: &'a PtyStr) {
        if let Slot::Boxed(ix) = self.slot {
            vm.heap.payload(ix)
        } else {
            unreached()
        }
    }
}

impl ObjImpl<Null> for Obj<Null> {
    open spec fn new_ens(vm0: Vm, vm1: Vm, value: Null, obj: Self) -> bool {
        &&& vm1 == vm0
        &&& obj@.slot == Slot::Empty
        &&& obj@.tag == Tag::Null
        &&& obj@.owned
    }

    open spec fn value_req(&self, vm: Vm) -> bool {
        true
    }

    open spec fn value_ens(&self, vm: Vm, r: Null) -> bool {
        true
    }

    /// Zero-sized storage: nothing at all is stored, and reading rebuilds
    /// the default instance.
    fn new(value: Null, vm: &mut Vm) -> (obj: Self) {
        Obj {
            slot: Slot::Empty,
            table: Vtable::new::<Null>(),
            owned: Ghost(true),
            _t: PhantomData,
        }
    }

    fn value<'a>(&'a self, vm: &'a Vm) -> (r: &'a Null) {
        &Null
    }
}

} // verus!
