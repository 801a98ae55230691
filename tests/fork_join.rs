use rayon_core_shim::{join, join_context, FnContext};
use std::sync::atomic::{AtomicUsize, Ordering};

#[test]
fn join_returns_both_results() {
    let r = join(|| 2 + 2, || "x".repeat(3));
    assert_eq!(r, (4, String::from("xxx")));
}

#[test]
fn join_runs_first_closure_to_completion_before_second() {
    let counter = AtomicUsize::new(0);
    let (a, b) = join(
        || {
            let start = counter.fetch_add(1, Ordering::SeqCst);
            let end = counter.fetch_add(1, Ordering::SeqCst);
            (start, end)
        },
        || {
            let start = counter.fetch_add(1, Ordering::SeqCst);
            let end = counter.fetch_add(1, Ordering::SeqCst);
            (start, end)
        },
    );
    assert_eq!(a, (0, 1));
    assert_eq!(b, (2, 3));
}

#[test]
fn join_context_reports_no_migration() {
    let (a, b) = join_context(|c: FnContext| c.migrated(), |c: FnContext| c.migrated());
    assert!(!a);
    assert!(!b);
}

#[test]
fn fn_context_is_never_migrated() {
    assert!(!FnContext.migrated());
}

#[test]
fn nested_joins_combine_results() {
    let (a, (b, c)) = join(|| 1u64, || join(|| 2u64, || 3u64));
    assert_eq!(a + b + c, 6);
}
