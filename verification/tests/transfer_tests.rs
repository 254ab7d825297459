use telefetch::transfer::{
    classify_rpc_error, run_transfer, Backend, ChunkFile, ChunkScheduler, FetchOutcome,
    TransferOutcome, WorkerEvent, WorkerState,
};

fn make_object(len: usize) -> Vec<u8> {
    let mut object = Vec::with_capacity(len);
    let mut i: usize = 0;
    while i < len {
        object.push((i % 251) as u8);
        i += 1;
    }
    object
}

fn plain_backend(object: Vec<u8>) -> Backend {
    Backend { object, home_shard: 1, needs_redirect: false, fail_at: None, fail_code: 0 }
}

#[test]
fn ten_megabytes_four_workers_no_redirects() {
    let object = make_object(10 * 1024 * 1024);
    let expected = object.clone();
    let backend = plain_backend(object);
    match run_transfer(&backend, 512 * 1024, 4, None) {
        TransferOutcome::Completed(file, stats) => {
            assert_eq!(file.len(), 10_485_760);
            assert_eq!(file, expected);
            assert_eq!(stats.delivered.len(), 20);
            assert_eq!(stats.redirects, 0);
        },
        _ => panic!("transfer should complete"),
    }
}

#[test]
fn cancelled_after_two_of_twenty_chunks() {
    let object = make_object(10 * 1024 * 1024);
    let backend = plain_backend(object);
    match run_transfer(&backend, 512 * 1024, 4, Some(2)) {
        TransferOutcome::Cancelled(stats) => {
            // two chunks were written, and no destination file survives
            assert_eq!(stats.delivered.len(), 2);
        },
        _ => panic!("transfer should be cancelled"),
    }
}

#[test]
fn redirect_at_offset_zero_fetches_it_once() {
    let object = make_object(12);
    let expected = object.clone();
    let backend = Backend {
        object,
        home_shard: 2,
        needs_redirect: true,
        fail_at: None,
        fail_code: 0,
    };
    match run_transfer(&backend, 4, 1, None) {
        TransferOutcome::Completed(file, stats) => {
            assert_eq!(file, expected);
            assert_eq!(stats.redirects, 1);
            let zero_chunks = stats.delivered.iter().filter(|off| **off == 0).count();
            assert_eq!(zero_chunks, 1);
            assert_eq!(stats.delivered.len(), 3);
        },
        _ => panic!("transfer should complete after the redirect"),
    }
}

#[test]
fn redirects_with_many_workers_keep_offsets_unique() {
    let object = make_object(100);
    let expected = object.clone();
    let backend = Backend {
        object,
        home_shard: 5,
        needs_redirect: true,
        fail_at: None,
        fail_code: 0,
    };
    match run_transfer(&backend, 7, 3, None) {
        TransferOutcome::Completed(file, stats) => {
            assert_eq!(file, expected);
            let mut seen = stats.delivered.clone();
            seen.sort();
            let before = seen.len();
            seen.dedup();
            assert_eq!(seen.len(), before);
            assert_eq!(before, (100 + 6) / 7);
        },
        _ => panic!("transfer should complete"),
    }
}

#[test]
fn fatal_rpc_error_fails_the_transfer() {
    let object = make_object(40);
    let backend = Backend {
        object,
        home_shard: 1,
        needs_redirect: false,
        fail_at: Some(16),
        fail_code: 420,
    };
    match run_transfer(&backend, 8, 2, None) {
        TransferOutcome::Failed(code, stats) => {
            assert_eq!(code, 420);
            assert!(!stats.delivered.contains(&16));
        },
        _ => panic!("transfer should fail"),
    }
}

#[test]
fn empty_object_completes_with_no_chunks() {
    let backend = plain_backend(Vec::new());
    match run_transfer(&backend, 8, 2, None) {
        TransferOutcome::Completed(file, stats) => {
            assert_eq!(file.len(), 0);
            assert_eq!(stats.delivered.len(), 0);
        },
        _ => panic!("empty transfer should complete"),
    }
}

#[test]
fn short_final_chunk_is_covered() {
    let object = make_object(10);
    let expected = object.clone();
    let backend = plain_backend(object);
    match run_transfer(&backend, 4, 2, None) {
        TransferOutcome::Completed(file, stats) => {
            assert_eq!(file, expected);
            assert_eq!(stats.delivered.len(), 3);
        },
        _ => panic!("transfer should complete"),
    }
}

#[test]
fn single_byte_chunks_cover_the_object() {
    let object = make_object(5);
    let expected = object.clone();
    let backend = plain_backend(object);
    match run_transfer(&backend, 1, 2, None) {
        TransferOutcome::Completed(file, stats) => {
            assert_eq!(file, expected);
            assert_eq!(stats.delivered, vec![0, 1, 2, 3, 4]);
        },
        _ => panic!("transfer should complete"),
    }
}

#[test]
fn scheduler_hands_out_each_offset_once() {
    let mut sched = ChunkScheduler::new(4, 10);
    assert_eq!(sched.assign(), Some(0));
    assert_eq!(sched.assign(), Some(4));
    assert_eq!(sched.assign(), Some(8));
    assert_eq!(sched.assign(), None);
    assert_eq!(sched.assign(), None);
}

#[test]
fn worker_redirect_pins_shard_and_retries_same_offset() {
    let mut ws = WorkerState::new();
    let mut sched = ChunkScheduler::new(4, 8);
    assert_eq!(telefetch::transfer::worker_take_offset(&mut ws, &mut sched), Some(0));
    let event = telefetch::transfer::worker_observe(&mut ws, 0, FetchOutcome::Redirect(3));
    match event {
        WorkerEvent::RetryAt(off) => assert_eq!(off, 0),
        _ => panic!("a redirect retries the same offset"),
    }
    assert_eq!(ws.shard, Some(3));
    assert_eq!(ws.retry, Some(0));
    // the retry does not advance the scheduler
    assert_eq!(telefetch::transfer::worker_take_offset(&mut ws, &mut sched), Some(0));
    assert_eq!(ws.retry, None);
    let event = telefetch::transfer::worker_observe(&mut ws, 0, FetchOutcome::Data(vec![1, 2, 3, 4]));
    match event {
        WorkerEvent::Deliver(off, bytes) => {
            assert_eq!(off, 0);
            assert_eq!(bytes, vec![1, 2, 3, 4]);
        },
        _ => panic!("data is delivered"),
    }
    assert_eq!(telefetch::transfer::worker_take_offset(&mut ws, &mut sched), Some(4));
}

#[test]
fn worker_other_error_is_fatal() {
    let mut ws = WorkerState::new();
    let event = telefetch::transfer::worker_observe(&mut ws, 4, FetchOutcome::Failed(500));
    match event {
        WorkerEvent::Fail(code) => assert_eq!(code, 500),
        _ => panic!("other errors are fatal"),
    }
}

#[test]
fn rpc_error_classification() {
    match classify_rpc_error(303, Some(4)) {
        FetchOutcome::Redirect(s) => assert_eq!(s, 4),
        _ => panic!("303 with a shard is the redirect"),
    }
    match classify_rpc_error(303, None) {
        FetchOutcome::Failed(code) => assert_eq!(code, 303),
        _ => panic!("303 without a shard is fatal"),
    }
    match classify_rpc_error(429, Some(4)) {
        FetchOutcome::Failed(code) => assert_eq!(code, 429),
        _ => panic!("other codes are fatal"),
    }
}

#[test]
fn chunk_file_accepts_chunks_out_of_order() {
    let mut file = ChunkFile::preallocate(10);
    file.write_chunk(8, &vec![9, 10]);
    file.write_chunk(0, &vec![1, 2, 3, 4]);
    file.write_chunk(4, &vec![5, 6, 7, 8]);
    assert_eq!(file.into_bytes(), vec![1, 2, 3, 4, 5, 6, 7, 8, 9, 10]);
}
