use std::cell::Cell;

use lazy::lazy::Lazy;

#[test]
fn lazy_test() {
    let x = 123;
    let mut t = Lazy::Thunk(|| 2 * x);
    assert!(t.is_forced() == false);
    assert!(t.get_if_forced() == None);
    assert!(t.get() == &246);
    assert!(t.is_forced() == true);
    assert!(t.get_if_forced() == Some(&246));
    assert!(t.get() == &246);
    assert!(t.into_inner() == 246);

    let _v: Lazy<fn() -> i32, i32> = Lazy::value(234);
}

#[test]
fn computation_runs_once_across_reads() {
    let runs = Cell::new(0u32);
    let mut t = Lazy::thunk(|| {
        runs.set(runs.get() + 1);
        41 + 1
    });
    assert_eq!(runs.get(), 0);
    assert_eq!(t.get_if_forced(), None);
    assert_eq!(*t.get(), 42);
    assert_eq!(*t.get(), 42);
    assert_eq!(t.get_if_forced(), Some(&42));
    assert_eq!(*t.get(), 42);
    assert_eq!(t.into_inner(), 42);
    assert_eq!(runs.get(), 1);
}

#[test]
fn thunk_is_not_run_at_construction() {
    let runs = Cell::new(0u32);
    let t = Lazy::thunk(|| {
        runs.set(runs.get() + 1);
        5
    });
    assert!(!t.is_forced());
    assert_eq!(t.get_if_forced(), None);
    assert_eq!(runs.get(), 0);
}

#[test]
fn into_inner_forces_a_pending_value() {
    let runs = Cell::new(0u32);
    let t = Lazy::thunk(|| {
        runs.set(runs.get() + 1);
        String::from("ready")
    });
    assert_eq!(t.into_inner(), "ready");
    assert_eq!(runs.get(), 1);
}

#[test]
fn value_built_starts_forced() {
    let mut v: Lazy<fn() -> i32, i32> = Lazy::value(234);
    assert!(v.is_forced());
    assert_eq!(v.get_if_forced(), Some(&234));
    assert_eq!(*v.get(), 234);
    assert!(v.is_forced());
    assert_eq!(v.into_inner(), 234);
}

#[test]
fn second_force_keeps_state_and_value() {
    let runs = Cell::new(0u32);
    let mut t = Lazy::thunk(|| {
        runs.set(runs.get() + 1);
        vec![1u8, 2, 3]
    });
    let first = t.get().clone();
    let second = t.get().clone();
    assert_eq!(first, vec![1, 2, 3]);
    assert_eq!(first, second);
    assert!(t.is_forced());
    assert_eq!(runs.get(), 1);
}
