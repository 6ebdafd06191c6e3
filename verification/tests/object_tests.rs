use pettyscript::core_types::{Null, Op, PtyStr};
use pettyscript::laws;
use pettyscript::object::{CanObj, Obj, ObjImpl};
use pettyscript::ptyptr::{binop, PtyPtr};
use pettyscript::vm::Vm;
use pettyscript::vtable::{Tag, Vtable};

fn int_obj(vm: &mut Vm, n: i64) -> Obj<PtyPtr> {
    Obj::<i64>::new(n, vm).cast_petty()
}

fn str_obj(vm: &mut Vm, s: &str) -> Obj<PtyPtr> {
    Obj::<PtyStr>::new(s.to_string(), vm).cast_petty()
}

fn value_of(vm: &Vm, obj: &Obj<PtyPtr>) -> Option<i64> {
    match obj.downcast_ref::<i64>() {
        Some(h) => Some(*h.value(vm)),
        None => None,
    }
}

fn str_value_of(vm: &Vm, obj: &Obj<PtyPtr>) -> Option<String> {
    match obj.downcast_ref::<PtyStr>() {
        Some(h) => Some(h.value(vm).clone()),
        None => None,
    }
}

#[test]
fn test_ints() {
    let mut vm = Vm::new();
    let mut int = int_obj(&mut vm, 5);
    let three = int_obj(&mut vm, 3);
    int = PtyPtr::__add__(&mut vm, &int, &three);
    assert_eq!(value_of(&vm, &int), Some(8));
    let two = int_obj(&mut vm, 2);
    int = PtyPtr::__sub__(&mut vm, &int, &two);
    assert_eq!(value_of(&vm, &int), Some(6));
    let three_again = int_obj(&mut vm, 3);
    int = PtyPtr::__mul__(&mut vm, &int, &three_again);
    assert_eq!(value_of(&vm, &int), Some(18));
    let two_again = int_obj(&mut vm, 2);
    int = PtyPtr::__div__(&mut vm, &int, &two_again);
    assert_eq!(value_of(&vm, &int), Some(9));
}

#[test]
fn test_pty_str() {
    let mut vm = Vm::new();
    let literal = str_obj(&mut vm, "Hello, ");
    let owned = str_obj(&mut vm, "World!");
    let added = PtyPtr::__add__(&mut vm, &literal, &owned)
        .downcast::<PtyStr>(&mut vm)
        .unwrap();
    assert_eq!(added.value(&vm), "Hello, World!");
}

#[test]
fn test_obj_casts() {
    let mut vm = Vm::new();
    let petty_obj = str_obj(&mut vm, "Hello, World!");
    let ref_obj = petty_obj.downcast_ref::<PtyStr>().unwrap();
    assert_eq!(ref_obj.value(&vm), "Hello, World!");
    let obj = petty_obj.downcast::<PtyStr>(&mut vm).unwrap();
    assert_eq!(obj.value(&vm), "Hello, World!");
}

#[test]
fn test_value_obj_casts() {
    let mut vm = Vm::new();
    let petty_obj = int_obj(&mut vm, 10 * 2 + 3);
    let ref_obj = petty_obj.downcast_ref::<i64>().unwrap();
    assert_eq!(*ref_obj.value(&vm), 10 * 2 + 3);
    let obj = petty_obj.downcast::<i64>(&mut vm).unwrap();
    assert_eq!(*obj.value(&vm), 10 * 2 + 3);
}

#[test]
fn test_zero_obj_casts() {
    let mut vm = Vm::new();
    let petty_obj = Obj::<Null>::new(Null, &mut vm).cast_petty();
    assert!(petty_obj.downcast_ref::<Null>().is_some());
}

#[test]
fn test_handle_sizes() {
    // every instantiation has exactly the size of the erased form
    assert_eq!(
        std::mem::size_of::<Obj<i64>>(),
        std::mem::size_of::<Obj<PtyPtr>>()
    );
    assert_eq!(
        std::mem::size_of::<Obj<PtyStr>>(),
        std::mem::size_of::<Obj<PtyPtr>>()
    );
    assert_eq!(
        std::mem::size_of::<Obj<Null>>(),
        std::mem::size_of::<Obj<PtyPtr>>()
    );
}

#[test]
fn test_string_counter_scenario() {
    let mut vm = Vm::new();
    let first = Obj::<PtyStr>::new("hi".to_owned(), &mut vm);
    let second = first.clone(&mut vm);
    assert_eq!(first.ref_count(&vm).copied(), Some(2));
    second.drop(&mut vm);
    assert_eq!(first.ref_count(&vm).copied(), Some(1));
    first.drop(&mut vm);
    // the cell was finalized exactly once and is now freed
    assert_eq!(vm.heap.count(0), 0);
    assert!(vm.heap.freed(0));
}

#[test]
fn test_inline_values_have_no_counter() {
    let mut vm = Vm::new();
    let obj = Obj::<i64>::new(7, &mut vm);
    assert!(obj.is_value());
    assert!(obj.ref_count(&vm).is_none());
    let null_obj = Obj::<Null>::new(Null, &mut vm);
    assert!(null_obj.is_value());
    let text = Obj::<PtyStr>::new("x".to_string(), &mut vm);
    assert!(!text.is_value());
    assert_eq!(text.ref_count(&vm).copied(), Some(1));
}

#[test]
fn test_inline_round_trip_values() {
    let mut vm = Vm::new();
    for x in [0i64, 1, -1, i64::MIN, i64::MAX] {
        let before = vm.heap.len();
        assert_eq!(laws::inline_round_trip(&mut vm, x), x);
        // no allocation is attributable to the inline handle
        assert_eq!(vm.heap.len(), before);
    }
}

#[test]
fn test_empty_round_trip() {
    let mut vm = Vm::new();
    let before = vm.heap.len();
    let _null_value = laws::empty_round_trip(&mut vm);
    assert_eq!(vm.heap.len(), before);
    assert_eq!(vm.not_implemented, 0);
}

#[test]
fn test_downcast_soundness() {
    let mut vm = Vm::new();
    // matching direction, both proved in general and run here
    laws::downcast_sound(&mut vm, 42);
    // mismatching directions on concrete values
    let int_erased = int_obj(&mut vm, 9);
    assert!(int_erased.downcast_ref::<PtyStr>().is_none());
    assert!(int_erased.downcast_ref::<Null>().is_none());
    assert!(int_erased.downcast_ref::<i64>().is_some());
    let str_erased = str_obj(&mut vm, "s");
    assert!(str_erased.downcast_ref::<i64>().is_none());
    assert!(str_erased.downcast::<Null>(&mut vm).is_none());
}

#[test]
fn test_clone_drop_balance_runs() {
    let mut vm = Vm::new();
    laws::clone_drop_balance(&mut vm, "shared".to_string(), 5);
    assert_eq!(vm.heap.len(), 1);
    assert!(vm.heap.freed(0));
    laws::clone_drop_balance(&mut vm, "again".to_string(), 0);
    assert_eq!(vm.heap.len(), 2);
    assert!(vm.heap.freed(1));
}

#[test]
fn test_sum_loop_scenario() {
    let mut vm = Vm::new();
    let before = vm.heap.len();
    let mut acc = int_obj(&mut vm, 0);
    for i in 0..1_000_000i64 {
        let term = int_obj(&mut vm, i);
        acc = binop(&mut vm, Op::Add, &acc, &term);
    }
    // zero heap allocations attributable to the integer handles
    assert_eq!(vm.heap.len(), before);
    assert_eq!(value_of(&vm, &acc), Some(499_999_500_000));
    assert_eq!(vm.not_implemented, 0);
}

#[test]
fn test_sum_ints_law() {
    let mut vm = Vm::new();
    let acc = laws::sum_ints(&mut vm, 1000);
    assert_eq!(value_of(&vm, &acc), Some(499_500));
    assert_eq!(vm.heap.len(), 0);
}

#[test]
fn test_unsupported_capability_reports() {
    let mut vm = Vm::new();
    let a = Obj::<Null>::new(Null, &mut vm).cast_petty();
    let b = Obj::<Null>::new(Null, &mut vm).cast_petty();
    let r = PtyPtr::__add__(&mut vm, &a, &b);
    // the process survives: the signal went to the context and the result
    // is the harmless null handle
    assert_eq!(vm.not_implemented, 1);
    assert!(r.downcast_ref::<Null>().is_some());
    let r2 = a.get_item(&mut vm, "key");
    assert_eq!(vm.not_implemented, 2);
    assert!(r2.downcast_ref::<Null>().is_some());
}

#[test]
fn test_division_conditions() {
    let mut vm = Vm::new();
    let one = int_obj(&mut vm, 1);
    let zero = int_obj(&mut vm, 0);
    let r = binop(&mut vm, Op::Div, &one, &zero);
    assert_eq!(vm.not_implemented, 1);
    assert!(r.downcast_ref::<Null>().is_some());
    let min = int_obj(&mut vm, i64::MIN);
    let minus_one = int_obj(&mut vm, -1);
    let r2 = binop(&mut vm, Op::Div, &min, &minus_one);
    assert_eq!(vm.not_implemented, 2);
    assert!(r2.downcast_ref::<Null>().is_some());
}

#[test]
fn test_wrapping_arithmetic() {
    let mut vm = Vm::new();
    let max = int_obj(&mut vm, i64::MAX);
    let one = int_obj(&mut vm, 1);
    let r = binop(&mut vm, Op::Add, &max, &one);
    assert_eq!(value_of(&vm, &r), Some(i64::MIN));
    assert_eq!(vm.not_implemented, 0);
}

#[test]
fn test_string_repeat() {
    let mut vm = Vm::new();
    let ab = str_obj(&mut vm, "ab");
    let three = int_obj(&mut vm, 3);
    let r = PtyPtr::__mul__(&mut vm, &ab, &three);
    assert_eq!(str_value_of(&vm, &r), Some("ababab".to_string()));
    let minus = int_obj(&mut vm, -5);
    let r2 = PtyPtr::__mul__(&mut vm, &ab, &minus);
    assert_eq!(str_value_of(&vm, &r2), Some(String::new()));
    assert_eq!(vm.not_implemented, 0);
}

#[test]
fn test_string_concat_short_circuits() {
    let mut vm = Vm::new();
    let empty = str_obj(&mut vm, "");
    let text = str_obj(&mut vm, "tail");
    let r = PtyPtr::__add__(&mut vm, &empty, &text);
    // the empty side short-circuits into a clone: the count went up, no new cell
    assert_eq!(vm.heap.len(), 2);
    assert_eq!(str_value_of(&vm, &r), Some("tail".to_string()));
    assert_eq!(text.ref_count(&vm).copied(), Some(2));
    let r2 = PtyPtr::__add__(&mut vm, &text, &empty);
    assert_eq!(vm.heap.len(), 2);
    assert_eq!(str_value_of(&vm, &r2), Some("tail".to_string()));
}

#[test]
fn test_string_mixed_operands_report() {
    let mut vm = Vm::new();
    let text = str_obj(&mut vm, "abc");
    let one = int_obj(&mut vm, 1);
    // string + integer is unsupported
    let r = PtyPtr::__add__(&mut vm, &text, &one);
    assert_eq!(vm.not_implemented, 1);
    assert!(r.downcast_ref::<Null>().is_some());
    // string * string is unsupported
    let other = str_obj(&mut vm, "x");
    let r2 = PtyPtr::__mul__(&mut vm, &text, &other);
    assert_eq!(vm.not_implemented, 2);
    assert!(r2.downcast_ref::<Null>().is_some());
}

#[test]
fn test_type_identity() {
    let mut vm = Vm::new();
    let int_erased = int_obj(&mut vm, 1);
    assert!(int_erased.is_type::<i64>());
    assert!(!int_erased.is_type::<PtyStr>());
    assert!(!int_erased.is_type::<Null>());
    let t_int = Vtable::new::<i64>();
    let t_str = Vtable::new::<PtyStr>();
    assert_eq!(t_int.tag, Tag::Int);
    assert_eq!(t_str.tag, Tag::Str);
    assert!(t_int != t_str);
    assert_eq!(Vtable::new::<i64>(), Vtable::new::<i64>());
}

#[test]
fn test_unchecked_downcast() {
    let mut vm = Vm::new();
    let erased = int_obj(&mut vm, 77);
    let typed = erased.downcast_ref_unchecked::<i64>();
    assert_eq!(*typed.value(&vm), 77);
    let erased_again = int_obj(&mut vm, 78);
    let owned = erased_again.downcast_unchecked::<i64>();
    assert_eq!(*owned.value(&vm), 78);
}

#[test]
fn test_static_hooks() {
    // the capability hooks resolved at their concrete types behave exactly
    // as the dispatcher does
    let mut vm = Vm::new();
    let five = int_obj(&mut vm, 5);
    let three = int_obj(&mut vm, 3);
    let sum = <i64 as CanObj>::__add__(&mut vm, &five, &three);
    assert_eq!(value_of(&vm, &sum), Some(8));
    assert_eq!(vm.not_implemented, 0);
    let text = str_obj(&mut vm, "abc");
    let r = <PtyStr as CanObj>::__sub__(&mut vm, &text, &five);
    assert_eq!(vm.not_implemented, 1);
    assert!(r.downcast_ref::<Null>().is_some());
    let r2 = <PtyStr as CanObj>::__div__(&mut vm, &text, &five);
    assert_eq!(vm.not_implemented, 2);
    assert!(r2.downcast_ref::<Null>().is_some());
    let a = Obj::<Null>::new(Null, &mut vm).cast_petty();
    let r3 = <Null as CanObj>::__mul__(&mut vm, &a, &five);
    assert_eq!(vm.not_implemented, 3);
    assert!(r3.downcast_ref::<Null>().is_some());
}
