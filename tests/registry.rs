use coz::{
    a_first_fn, b_second_fn, get_counter, lookup_counter, needs_larger_stack, thread_init_with,
    CounterKind, Resolver, SetupOutcome, ThreadSetup, MIN_ALTSTACK_SIZE,
};
use std::cell::Cell;

#[test]
fn lookup_without_entry_makes_no_call() {
    let calls = Cell::new(0u32);
    let r = lookup_counter(None::<usize>, CounterKind::Begin, "x", |_, _, _| {
        calls.set(calls.get() + 1);
        64usize
    });
    assert_eq!(r, None);
    assert_eq!(calls.get(), 0);
}

#[test]
fn lookup_passes_code_and_name() {
    let r = lookup_counter(Some(7usize), CounterKind::End, "y", |e, code, name| {
        assert_eq!(e, 7);
        assert_eq!(code, 3);
        assert_eq!(name, "y");
        4096usize
    });
    assert_eq!(r, Some(4096));
}

#[test]
fn lookup_null_answer_is_no_counter() {
    let r = lookup_counter(Some(1usize), CounterKind::Throughput, "z", |_, code, _| {
        assert_eq!(code, 1);
        0usize
    });
    assert_eq!(r, None);
}

#[test]
fn resolver_looks_once() {
    let finds = Cell::new(0u32);
    let resolver = Resolver::new(|| {
        finds.set(finds.get() + 1);
        Some(11usize)
    });
    assert_eq!(resolver.resolve(), Some(11));
    assert_eq!(resolver.resolve(), Some(11));
    assert_eq!(finds.get(), 1);
}

#[test]
fn resolver_keeps_not_found() {
    let finds = Cell::new(0u32);
    let resolver = Resolver::new(|| {
        finds.set(finds.get() + 1);
        None
    });
    assert_eq!(resolver.resolve(), None);
    assert_eq!(resolver.resolve(), None);
    assert_eq!(finds.get(), 1);
}

#[test]
fn find_now_searches_each_time() {
    let finds = Cell::new(0u32);
    let resolver = Resolver::new(|| {
        finds.set(finds.get() + 1);
        Some(3usize)
    });
    assert_eq!(resolver.find_now(), Some(3));
    assert_eq!(resolver.find_now(), Some(3));
    assert_eq!(finds.get(), 2);
}

#[test]
fn get_counter_through_resolver() {
    let resolver = Resolver::new(|| Some(2usize));
    let a = get_counter(&resolver, CounterKind::Begin, "io", |e, code, _| e * 100 + code as usize);
    assert_eq!(a, Some(202));
    let b = get_counter(&resolver, CounterKind::End, "io", |e, code, _| e * 100 + code as usize);
    assert_eq!(b, Some(203));
}

#[test]
fn get_counter_null_answer() {
    let resolver = Resolver::new(|| Some(2usize));
    let r = get_counter(&resolver, CounterKind::Throughput, "n", |_, _, _| 0usize);
    assert_eq!(r, None);
}

#[test]
fn get_counter_without_engine() {
    let resolver = Resolver::new(|| None);
    let calls = Cell::new(0u32);
    let r = get_counter(&resolver, CounterKind::Throughput, "t", |_, _, _| {
        calls.set(calls.get() + 1);
        1usize
    });
    assert_eq!(r, None);
    assert_eq!(calls.get(), 0);
}

#[test]
fn thread_setup_runs_once() {
    let inspections = Cell::new(0u32);
    let allocations = Cell::new(0u32);
    let mut setup = ThreadSetup::new();
    let first = thread_init_with(
        &mut setup,
        || {
            inspections.set(inspections.get() + 1);
            8192
        },
        |size| {
            assert_eq!(size, 1 << 20);
            allocations.set(allocations.get() + 1);
            true
        },
    );
    let second = thread_init_with(
        &mut setup,
        || {
            inspections.set(inspections.get() + 1);
            8192
        },
        |_| {
            allocations.set(allocations.get() + 1);
            true
        },
    );
    assert_eq!(first, SetupOutcome::Installed);
    assert_eq!(second, SetupOutcome::AlreadyDone);
    assert_eq!(inspections.get(), 1);
    assert_eq!(allocations.get(), 1);
}

#[test]
fn thread_setup_keeps_large_stack() {
    let mut setup = ThreadSetup::new();
    let r = thread_init_with(&mut setup, || MIN_ALTSTACK_SIZE, |_| panic!("no allocation expected"));
    assert_eq!(r, SetupOutcome::Adequate);
    assert!(setup.done);
}

#[test]
fn thread_setup_reports_failed_allocation() {
    let mut setup = ThreadSetup::new();
    let r = thread_init_with(&mut setup, || 0, |_| false);
    assert_eq!(r, SetupOutcome::AllocationFailed);
}

#[test]
fn stack_size_threshold() {
    assert_eq!(MIN_ALTSTACK_SIZE, 1048576);
    assert!(needs_larger_stack(0));
    assert!(needs_larger_stack(1048575));
    assert!(!needs_larger_stack(1048576));
}

#[test]
fn benchmark_workloads_return_zero() {
    assert_eq!(b_second_fn(), 0);
    assert_eq!(a_first_fn(), 0);
}
