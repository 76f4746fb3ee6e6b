//! The transfer engine end to end: throttled progress, completion with every
//! byte on disk, cooperative cancellation with the partial file removed, and
//! the history the terminal states are merged into.

use axion_browser::downloads::{
    DownloadManager, HeadInfo, clear_completed, finish_intercepted, history_finalize,
    history_insert_front, history_merge, intercepted_download_record, new_download_record,
    prepare_download,
};
use axion_browser::transfer::{ChunkAction, ChunkEvent, Transfer, run_transfer};

fn burst(count: usize, len: usize, start_ms: u64, spacing_ms: u64) -> Vec<ChunkEvent> {
    let mut v = Vec::new();
    let mut i: usize = 0;
    while i < count {
        v.push(ChunkEvent { len, cancel: false, now_ms: start_ms + (i as u64) * spacing_ms });
        i += 1;
    }
    v
}

#[test]
fn thousand_chunks_in_fifty_ms_emit_nothing() {
    // 1000 chunks all inside one 50 ms window: progress notifications follow
    // elapsed time, not chunk count, and no full throttle window has passed.
    let mut chunks = Vec::new();
    for i in 0..1000u64 {
        chunks.push(ChunkEvent { len: 10, cancel: false, now_ms: 1000 + (i * 50) / 1000 });
    }
    let run = run_transfer("dl_t".to_string(), 10_000, 1000, &chunks);
    assert_eq!(run.progress.len(), 0);
    assert_eq!(run.state, "completed");
    assert_eq!(run.received_bytes, 10_000);
}

#[test]
fn progress_follows_elapsed_windows() {
    // 100 chunks spread over a second: one notification per 250 ms window.
    let chunks = burst(100, 100, 1000, 10);
    let run = run_transfer("dl_t".to_string(), 10_000, 1000, &chunks);
    assert_eq!(run.progress.len(), 3);
    for w in run.progress.windows(2) {
        assert!(w[0].received_bytes <= w[1].received_bytes);
    }
    for p in &run.progress {
        assert_eq!(p.id, "dl_t");
        assert_eq!(p.total_bytes, 10_000);
        assert_eq!(p.state, "progressing");
        assert!(p.speed >= 0);
    }
}

#[test]
fn completed_stream_delivers_every_byte_to_disk() {
    // A mocked 10,000-byte response in ten chunks, replayed through the
    // engine with a simulated disk file.
    let mut task = Transfer::begin("dl_e2e".to_string(), 10_000, 500);
    let mut file: Vec<u8> = Vec::new();
    let mut completed_events = 0;
    for i in 0..10u64 {
        let action = task.on_chunk(1000, false, 500 + i);
        match action {
            ChunkAction::Cancelled => panic!("nothing requested cancellation"),
            ChunkAction::Write => file.extend(std::iter::repeat(0u8).take(1000)),
            ChunkAction::WriteAndEmit(_) => file.extend(std::iter::repeat(0u8).take(1000)),
        }
    }
    // The stream is exhausted: exactly one terminal outcome.
    completed_events += 1;
    let mut history = Vec::new();
    history_insert_front(
        &mut history,
        new_download_record(
            "dl_e2e".to_string(),
            "file.bin".to_string(),
            "http://host/file.bin".to_string(),
            10_000,
            None,
            "/downloads/file.bin".to_string(),
            500,
        ),
    );
    history_finalize(&mut history, "dl_e2e", "completed");
    assert_eq!(completed_events, 1);
    assert_eq!(task.received_bytes, 10_000);
    assert_eq!(task.received_bytes, task.total_bytes);
    assert_eq!(file.len(), 10_000);
    assert_eq!(history[0].state, "completed");
    assert_eq!(history[0].received_bytes, 10_000);
}

#[test]
fn cancellation_mid_transfer_removes_partial_file() {
    let mut manager = DownloadManager::new();
    manager.register("dl_c".to_string());

    // Five chunks arrive, then the user cancels, then more chunks arrive.
    let mut chunks = burst(5, 200, 100, 1);
    assert!(manager.request_cancel("dl_c"));
    for i in 0..5u64 {
        chunks.push(
            ChunkEvent { len: 200, cancel: manager.is_cancel_requested("dl_c"), now_ms: 200 + i },
        );
    }
    let run = run_transfer("dl_c".to_string(), 2000, 100, &chunks);
    assert_eq!(run.state, "cancelled");
    assert!(run.file_deleted);
    assert_eq!(run.received_bytes, 1000);

    let mut history = Vec::new();
    history_insert_front(
        &mut history,
        new_download_record(
            "dl_c".to_string(),
            "big.bin".to_string(),
            "http://host/big.bin".to_string(),
            2000,
            None,
            "/downloads/big.bin".to_string(),
            100,
        ),
    );
    history_finalize(&mut history, "dl_c", "cancelled");
    manager.unregister("dl_c");
    assert_eq!(history[0].state, "cancelled");
    assert!(!manager.is_cancel_requested("dl_c"));
}

#[test]
fn cancel_request_for_finished_transfer_is_a_noop() {
    let mut manager = DownloadManager::new();
    assert!(!manager.request_cancel("nobody"));
    manager.register("dl_x".to_string());
    manager.unregister("dl_x");
    assert!(!manager.request_cancel("dl_x"));
}

#[test]
fn history_is_most_recent_first_and_clearing_keeps_live_transfers() {
    let mut history = Vec::new();
    let older = new_download_record(
        "dl_1".to_string(),
        "one.txt".to_string(),
        "http://h/one.txt".to_string(),
        5,
        None,
        "/d/one.txt".to_string(),
        10,
    );
    let newer = new_download_record(
        "dl_2".to_string(),
        "two.txt".to_string(),
        "http://h/two.txt".to_string(),
        6,
        None,
        "/d/two.txt".to_string(),
        20,
    );
    history_insert_front(&mut history, older);
    history_insert_front(&mut history, newer);
    assert_eq!(history[0].id, "dl_2");
    assert_eq!(history[1].id, "dl_1");

    history_finalize(&mut history, "dl_1", "interrupted");
    assert_eq!(history[1].state, "interrupted");
    // An interrupted record keeps its received count rather than the total.
    assert_eq!(history[1].received_bytes, 0);

    clear_completed(&mut history);
    assert_eq!(history.len(), 1);
    assert_eq!(history[0].id, "dl_2");

    history_finalize(&mut history, "dl_2", "completed");
    clear_completed(&mut history);
    assert!(history.is_empty());
}

#[test]
fn history_finalize_ignores_unknown_ids() {
    let mut history = Vec::new();
    history_insert_front(
        &mut history,
        new_download_record(
            "dl_a".to_string(),
            "a".to_string(),
            "u".to_string(),
            -1,
            None,
            "/d/a".to_string(),
            0,
        ),
    );
    history_finalize(&mut history, "dl_missing", "completed");
    assert_eq!(history.len(), 1);
    assert_eq!(history[0].state, "progressing");
}

#[test]
fn prepared_record_resolves_name_and_path() {
    let head = HeadInfo {
        total_bytes: 4096,
        content_disposition: Some("attachment; filename=\"report.pdf\"".to_string()),
        mime_type: Some("application/pdf".to_string()),
    };
    let existing = vec!["report.pdf".to_string()];
    let d = prepare_download(
        &"https://host.example/get?id=7".to_string(),
        None,
        &head,
        &existing,
        "/home/user/Downloads",
        "dl_prep".to_string(),
        123456,
    );
    assert_eq!(d.id, "dl_prep");
    assert_eq!(d.url, "https://host.example/get?id=7");
    assert_eq!(d.filename, "report (1).pdf");
    assert_eq!(d.save_path.as_deref(), Some("/home/user/Downloads/report (1).pdf"));
    assert_eq!(d.total_bytes, 4096);
    assert_eq!(d.received_bytes, 0);
    assert_eq!(d.state, "progressing");
    assert_eq!(d.start_time, 123456);
    assert_eq!(d.speed, 0);
    assert_eq!(d.mime_type.as_deref(), Some("application/pdf"));
}

#[test]
fn caller_supplied_name_wins_over_everything() {
    let head = HeadInfo {
        total_bytes: -1,
        content_disposition: Some("attachment; filename=\"other.bin\"".to_string()),
        mime_type: None,
    };
    let existing: Vec<String> = Vec::new();
    let d = prepare_download(
        &"https://host.example/x/y.zip".to_string(),
        Some("wanted.zip".to_string()),
        &head,
        &existing,
        "/tmp/dls",
        "dl_s".to_string(),
        1,
    );
    assert_eq!(d.filename, "wanted.zip");
    assert_eq!(d.total_bytes, -1);
}

#[test]
fn intercepted_download_round_trip() {
    let url = "https://cdn.example/pkg/tool%20kit.zip".to_string();
    let mut d = intercepted_download_record("dl_i".to_string(), &url, "/home/u/Downloads", 42);
    assert_eq!(d.filename, "tool kit.zip");
    assert_eq!(d.save_path.as_deref(), Some("/home/u/Downloads/tool kit.zip"));
    assert_eq!(d.total_bytes, -1);
    assert_eq!(d.state, "progressing");

    finish_intercepted(&mut d, true, Some(8192));
    assert_eq!(d.state, "completed");
    assert_eq!(d.total_bytes, 8192);
    assert_eq!(d.received_bytes, 8192);

    let mut history = Vec::new();
    history_insert_front(
        &mut history,
        new_download_record(
            "dl_other".to_string(),
            "o".to_string(),
            "u".to_string(),
            1,
            None,
            "/d/o".to_string(),
            0,
        ),
    );
    // A new id is prepended.
    history_merge(&mut history, d);
    assert_eq!(history.len(), 2);
    assert_eq!(history[0].id, "dl_i");
    // The same id is replaced in place.
    let mut again = intercepted_download_record("dl_i".to_string(), &url, "/home/u/Downloads", 43);
    finish_intercepted(&mut again, false, None);
    history_merge(&mut history, again);
    assert_eq!(history.len(), 2);
    assert_eq!(history[0].state, "interrupted");
    assert_eq!(history[0].total_bytes, -1);
}

#[test]
fn speed_is_bytes_per_second_from_the_delta() {
    let mut task = Transfer::begin("dl_s".to_string(), -1, 0);
    // 500 bytes, then a notification 500 ms later with 1500 more bytes.
    match task.on_chunk(500, false, 100) {
        ChunkAction::Write => {},
        _ => panic!("first chunk arrives inside the first window"),
    }
    match task.on_chunk(1500, false, 500) {
        ChunkAction::WriteAndEmit(p) => {
            assert_eq!(p.received_bytes, 2000);
            assert_eq!(p.total_bytes, -1);
            // 2000 bytes over 500 ms.
            assert_eq!(p.speed, 4000);
        },
        _ => panic!("a full window has passed, a notification must fire"),
    }
}
