use rust_bytes::reduce::{reduce_parallel, resolve_outcome};

#[test]
fn empty_input_sums_to_zero() {
    assert_eq!(reduce_parallel(&[]), 0);
}

#[test]
fn singleton_sums_to_itself() {
    assert_eq!(reduce_parallel(&[1]), 1);
}

#[test]
fn mixed_values_give_the_exact_sum() {
    assert_eq!(reduce_parallel(&[2, 3]), 5);
    assert_eq!(reduce_parallel(&[9, 0, 4, 7]), 20);
}

#[test]
fn a_million_ones() {
    let nums = vec![1u64; 1024 * 1024];
    assert_eq!(reduce_parallel(&nums), 1_048_576);
}

#[test]
fn repeated_calls_agree() {
    let nums = vec![3u64, 5, 9];
    let first = reduce_parallel(&nums);
    let second = reduce_parallel(&nums);
    assert_eq!(first, 17);
    assert_eq!(second, first);
}

#[test]
fn delivered_outcome_is_kept() {
    assert_eq!(resolve_outcome(Some(7)), 7);
    assert_eq!(resolve_outcome(Some(0)), 0);
}

#[test]
fn missing_outcome_falls_back_to_zero() {
    assert_eq!(resolve_outcome(None), 0);
}

#[test]
fn dropped_producer_resolves_to_fallback() {
    let rt = tokio::runtime::Builder::new_multi_thread()
        .worker_threads(1)
        .build()
        .unwrap();
    let out = rt.block_on(async {
        let (tx, rx) = tokio::sync::oneshot::channel::<u64>();
        drop(tx);
        resolve_outcome(rx.await.ok())
    });
    assert_eq!(out, 0);
}

#[test]
fn concurrent_callers_keep_results_apart() {
    let rt = tokio::runtime::Builder::new_multi_thread()
        .worker_threads(2)
        .build()
        .unwrap();
    let (small, large) = rt.block_on(async {
        let first = tokio::spawn(async {
            let (tx, rx) = tokio::sync::oneshot::channel();
            rayon::scope(|s| {
                s.spawn(|_| {
                    let _ = tx.send(reduce_parallel(&[1, 2, 3]));
                });
            });
            resolve_outcome(rx.await.ok())
        });
        let second = tokio::spawn(async {
            let (tx, rx) = tokio::sync::oneshot::channel();
            rayon::scope(|s| {
                s.spawn(|_| {
                    let _ = tx.send(reduce_parallel(&[10, 20]));
                });
            });
            resolve_outcome(rx.await.ok())
        });
        (first.await.unwrap(), second.await.unwrap())
    });
    assert_eq!(small, 6);
    assert_eq!(large, 30);
}
