use task_batch::{
    batch_messages, completion_message, draw_batch_durations, record_batch, ResultStore,
    BATCH_SIZE,
};

#[test]
fn new_store_is_empty() {
    let store = ResultStore::new();
    assert_eq!(store.len(), 0);
    assert!(store.snapshot().is_empty());
}

#[test]
fn completion_message_exact_text() {
    assert_eq!(completion_message(1), "task completed in 1 seconds");
    assert_eq!(completion_message(2), "task completed in 2 seconds");
    assert_eq!(completion_message(3), "task completed in 3 seconds");
    assert_eq!(completion_message(4), "task completed in 4 seconds");
}

#[test]
fn batch_preserves_submission_slot_order() {
    let durations: Vec<u64> = vec![4, 1, 3, 2, 1];
    let msgs = batch_messages(&durations);
    let expected: Vec<String> = vec![
        "task completed in 4 seconds".to_string(),
        "task completed in 1 seconds".to_string(),
        "task completed in 3 seconds".to_string(),
        "task completed in 2 seconds".to_string(),
        "task completed in 1 seconds".to_string(),
    ];
    assert_eq!(msgs, expected);
}

#[test]
fn store_length_grows_by_five_per_batch() {
    let mut store = ResultStore::new();
    for n in 1..=4u64 {
        let durations: Vec<u64> = vec![1, 2, 3, 4, 1];
        record_batch(&mut store, &durations);
        assert_eq!(store.len(), 5 * n as usize);
        assert_eq!(store.snapshot().len(), 5 * n as usize);
    }
}

#[test]
fn snapshot_is_idempotent() {
    let mut store = ResultStore::new();
    let durations: Vec<u64> = vec![2, 2, 4, 1, 3];
    record_batch(&mut store, &durations);
    let first = store.snapshot();
    let second = store.snapshot();
    assert_eq!(first, second);
}

#[test]
fn drawn_durations_stay_in_bounds() {
    let mut seen = [false; 5];
    for _ in 0..400 {
        let durations = draw_batch_durations();
        assert_eq!(durations.len(), BATCH_SIZE);
        for d in durations {
            assert!((1..=4).contains(&d), "duration {} out of range", d);
            seen[d as usize] = true;
        }
    }
    // every message built from a drawn duration reports a digit in range
    let durations = draw_batch_durations();
    for d in durations {
        let msg = completion_message(d);
        let expected = format!("task completed in {} seconds", d);
        assert_eq!(msg, expected);
    }
    assert!(!seen[0]);
}

#[test]
fn stubbed_batch_end_to_end() {
    let mut store = ResultStore::new();
    let durations: Vec<u64> = vec![1, 1, 1, 1, 1];
    record_batch(&mut store, &durations);
    let snap = store.snapshot();
    let expected: Vec<String> = vec![
        "task completed in 1 seconds".to_string(),
        "task completed in 1 seconds".to_string(),
        "task completed in 1 seconds".to_string(),
        "task completed in 1 seconds".to_string(),
        "task completed in 1 seconds".to_string(),
    ];
    assert_eq!(snap, expected);
}

#[test]
fn overlapping_batches_append_atomically() {
    let runtime = tokio::runtime::Builder::new_multi_thread()
        .worker_threads(2)
        .enable_time()
        .build()
        .unwrap();
    let store = std::sync::Arc::new(std::sync::Mutex::new(ResultStore::new()));
    let store_a = std::sync::Arc::clone(&store);
    let store_b = std::sync::Arc::clone(&store);
    runtime.block_on(async move {
        let task_a = tokio::spawn(async move {
            tokio::time::sleep(tokio::time::Duration::from_millis(10)).await;
            let durations: Vec<u64> = vec![1, 1, 1, 1, 1];
            record_batch(&mut store_a.lock().unwrap(), &durations);
        });
        let task_b = tokio::spawn(async move {
            tokio::time::sleep(tokio::time::Duration::from_millis(10)).await;
            let durations: Vec<u64> = vec![2, 2, 2, 2, 2];
            record_batch(&mut store_b.lock().unwrap(), &durations);
        });
        task_a.await.unwrap();
        task_b.await.unwrap();
    });
    let snap = store.lock().unwrap().snapshot();
    assert_eq!(snap.len(), 10);
    // each batch's five entries are contiguous: the first five all agree,
    // the last five all agree, and the two halves differ
    let first_half = &snap[0..5];
    let second_half = &snap[5..10];
    assert!(first_half.iter().all(|m| m == &first_half[0]));
    assert!(second_half.iter().all(|m| m == &second_half[0]));
    assert_ne!(first_half[0], second_half[0]);
}
