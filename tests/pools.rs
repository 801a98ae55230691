use rayon_core_shim::{current_num_threads, ThreadPool, ThreadPoolBuildError, ThreadPoolBuilder};

#[test]
fn build_succeeds_for_any_requested_count() {
    for n in [0usize, 1, 64] {
        let pool = ThreadPoolBuilder::new().num_threads(n).build();
        assert!(pool.is_ok());
        assert_eq!(pool.unwrap().current_num_threads(), 1);
    }
}

#[test]
fn build_global_succeeds() {
    assert!(ThreadPoolBuilder::new().num_threads(64).build_global().is_ok());
    assert!(ThreadPoolBuilder::new().build_global().is_ok());
}

#[test]
fn pool_new_succeeds() {
    let pool = ThreadPool::new(ThreadPoolBuilder::new().num_threads(0));
    assert!(pool.is_ok());
    assert_eq!(pool.unwrap().current_num_threads(), 1);
}

#[test]
fn install_returns_closure_result() {
    let pool = ThreadPoolBuilder::new().num_threads(4).build().unwrap();
    let v = pool.install(|| (1..=10).sum::<u32>());
    assert_eq!(v, 55);
    let inner = pool.install(current_num_threads);
    assert_eq!(inner, 1);
}

#[test]
fn build_error_message_names_the_error() {
    assert_eq!(ThreadPoolBuildError.to_string(), "ThreadPoolBuildError");
}
