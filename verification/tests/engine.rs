use down_on_spot::{
    advance, estimate_remaining, summarize, EnqueueError, ErrorKind, EventLog, JobState,
    JobStore, NextAction, PipelineEvent, TrackRef, UpdateError, WorkerPool,
};

fn track(id: &str) -> TrackRef {
    TrackRef {
        track_id: id.to_string(),
        title: format!("title of {}", id),
        author: format!("author of {}", id),
    }
}

#[test]
fn enqueue_rejects_duplicate_id() {
    let mut store = JobStore::new();
    assert!(store.enqueue_track("abc123".to_string()).is_ok());
    assert_eq!(
        store.enqueue_track("abc123".to_string()),
        Err(EnqueueError::DuplicateJob)
    );
    assert_eq!(store.len(), 1);
}

#[test]
fn enqueue_rejects_duplicate_even_after_terminal() {
    let mut store = JobStore::new();
    assert!(store.enqueue(track("t1")).is_ok());
    let h = store.claim_next().unwrap();
    let act = advance(
        &mut store,
        h,
        PipelineEvent::OutputChecked { exists: true },
    );
    assert_eq!(act, NextAction::Stop);
    assert!(store.is_job_terminal(h));
    assert_eq!(store.enqueue(track("t1")), Err(EnqueueError::DuplicateJob));
}

#[test]
fn claim_next_takes_first_queued_only() {
    let mut store = JobStore::new();
    assert_eq!(store.claim_next(), None);
    store.enqueue(track("a")).unwrap();
    store.enqueue(track("b")).unwrap();
    assert_eq!(store.claim_next(), Some(0));
    assert!(matches!(store.state_of(0), JobState::Claimed));
    assert!(matches!(store.state_of(1), JobState::Queued));
    assert_eq!(store.claim_next(), Some(1));
    assert_eq!(store.claim_next(), None);
}

#[test]
fn downloading_progress_is_monotone_and_bounded() {
    let mut store = JobStore::new();
    store.enqueue(track("a")).unwrap();
    let h = store.claim_next().unwrap();
    assert!(store
        .update(
            h,
            JobState::Downloading { received: 0, total: Some(100) }
        )
        .is_ok());
    assert!(store
        .update(
            h,
            JobState::Downloading { received: 50, total: Some(100) }
        )
        .is_ok());
    // received must not go backwards
    assert_eq!(
        store.update(
            h,
            JobState::Downloading { received: 40, total: Some(100) }
        ),
        Err(UpdateError::InvalidTransition)
    );
    // received must not exceed a known total
    assert_eq!(
        store.update(
            h,
            JobState::Downloading { received: 200, total: Some(100) }
        ),
        Err(UpdateError::InvalidTransition)
    );
    // a known total is sticky
    assert_eq!(
        store.update(
            h,
            JobState::Downloading { received: 60, total: Some(999) }
        ),
        Err(UpdateError::InvalidTransition)
    );
}

#[test]
fn terminal_states_are_write_once() {
    let mut store = JobStore::new();
    store.enqueue(track("a")).unwrap();
    let h = store.claim_next().unwrap();
    store
        .update(
            h,
            JobState::Downloading { received: 0, total: Some(10) },
        )
        .unwrap();
    store.update(h, JobState::Converting).unwrap();
    store.update(h, JobState::Done).unwrap();
    // a finished job accepts no further write, not even an error
    assert_eq!(
        store.update(
            h,
            JobState::Error { kind: ErrorKind::Unknown, message: String::new() }
        ),
        Err(UpdateError::InvalidTransition)
    );
    assert_eq!(
        store.update(h, JobState::Converting),
        Err(UpdateError::InvalidTransition)
    );
    assert!(matches!(store.state_of(h), JobState::Done));
}

#[test]
fn queued_jobs_cannot_be_moved_by_update() {
    let mut store = JobStore::new();
    store.enqueue(track("a")).unwrap();
    assert_eq!(
        store.update(0, JobState::Claimed),
        Err(UpdateError::InvalidTransition)
    );
    assert_eq!(
        store.update(
            0,
            JobState::Downloading { received: 0, total: None }
        ),
        Err(UpdateError::InvalidTransition)
    );
}

#[test]
fn pool_never_exceeds_concurrency_limit() {
    let mut store = JobStore::new();
    for id in ["a", "b", "c", "d"] {
        store.enqueue(track(id)).unwrap();
    }
    let pool = WorkerPool::new(2);
    let h1 = pool.try_dispatch(&mut store);
    let h2 = pool.try_dispatch(&mut store);
    assert!(h1.is_some());
    assert!(h2.is_some());
    // two slots busy: a third dispatch must refuse although jobs wait
    assert_eq!(pool.try_dispatch(&mut store), None);
    assert_eq!(WorkerPool::in_flight_count(&store), 2);
    // finish one pipeline; its slot frees up
    let act = advance(
        &mut store,
        h1.unwrap(),
        PipelineEvent::StreamFailed { message: "socket closed".to_string() },
    );
    assert_eq!(act, NextAction::Stop);
    assert_eq!(WorkerPool::in_flight_count(&store), 1);
    assert!(pool.try_dispatch(&mut store).is_some());
    assert_eq!(WorkerPool::in_flight_count(&store), 2);
}

#[test]
fn skip_check_short_circuits_before_streaming() {
    let mut store = JobStore::new();
    store.enqueue(track("seen-before")).unwrap();
    let h = store.claim_next().unwrap();
    let act = advance(
        &mut store,
        h,
        PipelineEvent::OutputChecked { exists: true },
    );
    // the driver is told to stop: the audio session is never opened
    assert_eq!(act, NextAction::Stop);
    match store.state_of(h) {
        JobState::Error { kind, .. } => assert_eq!(*kind, ErrorKind::AlreadyDownloaded),
        other => panic!("expected a skip, found {:?}", other),
    }
    let summary = summarize(&store.snapshot());
    assert_eq!(summary.skipped, 1);
    assert_eq!(summary.failed, 0);
}

#[test]
fn full_pipeline_of_one_track() {
    let mut store = JobStore::new();
    store.enqueue(track("abc123")).unwrap();
    let pool = WorkerPool::new(1);
    let h = pool.try_dispatch(&mut store).unwrap();

    let act = advance(&mut store, h, PipelineEvent::OutputChecked { exists: false });
    assert_eq!(act, NextAction::OpenStream);
    assert!(matches!(store.state_of(h), JobState::Claimed));

    let act = advance(&mut store, h, PipelineEvent::StreamOpened { total: Some(1000) });
    assert_eq!(act, NextAction::ReadChunk);
    assert!(matches!(
        store.state_of(h),
        JobState::Downloading { received: 0, total: Some(1000) }
    ));

    let act = advance(&mut store, h, PipelineEvent::ChunkRead { bytes: 1000 });
    assert_eq!(act, NextAction::ReadChunk);
    assert!(matches!(
        store.state_of(h),
        JobState::Downloading { received: 1000, total: Some(1000) }
    ));

    let act = advance(&mut store, h, PipelineEvent::StreamFinished);
    assert_eq!(act, NextAction::Convert);
    assert!(matches!(store.state_of(h), JobState::Converting));

    let act = advance(
        &mut store,
        h,
        PipelineEvent::ConversionFinished { ok: true, message: String::new() },
    );
    assert_eq!(act, NextAction::Stop);
    assert!(matches!(store.state_of(h), JobState::Done));
}

#[test]
fn chunk_progress_is_clamped_to_known_total() {
    let mut store = JobStore::new();
    store.enqueue(track("a")).unwrap();
    let h = store.claim_next().unwrap();
    advance(&mut store, h, PipelineEvent::StreamOpened { total: Some(100) });
    advance(&mut store, h, PipelineEvent::ChunkRead { bytes: 250 });
    assert!(matches!(
        store.state_of(h),
        JobState::Downloading { received: 100, total: Some(100) }
    ));
}

#[test]
fn stream_failure_classifies_as_protocol() {
    let mut store = JobStore::new();
    store.enqueue(track("a")).unwrap();
    let h = store.claim_next().unwrap();
    advance(&mut store, h, PipelineEvent::StreamOpened { total: None });
    let act = advance(
        &mut store,
        h,
        PipelineEvent::StreamFailed { message: "connection reset".to_string() },
    );
    assert_eq!(act, NextAction::Stop);
    match store.state_of(h) {
        JobState::Error { kind, message } => {
            assert_eq!(*kind, ErrorKind::Protocol);
            assert_eq!(message, "connection reset");
        }
        other => panic!("expected a protocol error, found {:?}", other),
    }
}

#[test]
fn conversion_failure_classifies_as_conversion() {
    let mut store = JobStore::new();
    store.enqueue(track("a")).unwrap();
    let h = store.claim_next().unwrap();
    advance(&mut store, h, PipelineEvent::StreamOpened { total: Some(4) });
    advance(&mut store, h, PipelineEvent::ChunkRead { bytes: 4 });
    advance(&mut store, h, PipelineEvent::StreamFinished);
    let act = advance(
        &mut store,
        h,
        PipelineEvent::ConversionFinished { ok: false, message: "bad frame".to_string() },
    );
    assert_eq!(act, NextAction::Stop);
    match store.state_of(h) {
        JobState::Error { kind, message } => {
            assert_eq!(*kind, ErrorKind::Conversion);
            assert_eq!(message, "bad frame");
        }
        other => panic!("expected a conversion error, found {:?}", other),
    }
}

#[test]
fn unexpected_event_classifies_as_unknown() {
    let mut store = JobStore::new();
    store.enqueue(track("a")).unwrap();
    let h = store.claim_next().unwrap();
    // a chunk cannot arrive before any stream was opened
    let act = advance(&mut store, h, PipelineEvent::StreamFinished);
    assert_eq!(act, NextAction::Stop);
    match store.state_of(h) {
        JobState::Error { kind, .. } => assert_eq!(*kind, ErrorKind::Unknown),
        other => panic!("expected an unknown error, found {:?}", other),
    }
}

#[test]
fn summary_of_one_failure_one_success() {
    let mut store = JobStore::new();
    store.enqueue(track("bad")).unwrap();
    store.enqueue(track("good")).unwrap();
    let pool = WorkerPool::new(2);
    let h1 = pool.try_dispatch(&mut store).unwrap();
    let h2 = pool.try_dispatch(&mut store).unwrap();
    advance(&mut store, h1, PipelineEvent::OutputChecked { exists: false });
    advance(
        &mut store,
        h1,
        PipelineEvent::StreamFailed { message: "went away".to_string() },
    );
    advance(&mut store, h2, PipelineEvent::OutputChecked { exists: false });
    advance(&mut store, h2, PipelineEvent::StreamOpened { total: Some(8) });
    advance(&mut store, h2, PipelineEvent::ChunkRead { bytes: 8 });
    advance(&mut store, h2, PipelineEvent::StreamFinished);
    advance(
        &mut store,
        h2,
        PipelineEvent::ConversionFinished { ok: true, message: String::new() },
    );
    let summary = summarize(&store.snapshot());
    assert_eq!(summary.waiting, 0);
    assert_eq!(summary.downloading, 0);
    assert_eq!(summary.postprocessing, 0);
    assert_eq!(summary.failed, 1);
    assert_eq!(summary.done, 1);
    assert_eq!(summary.skipped, 0);
}

#[test]
fn snapshot_reflects_fields_and_states() {
    let mut store = JobStore::new();
    store.enqueue(track("x")).unwrap();
    store.enqueue(track("y")).unwrap();
    store.claim_next().unwrap();
    let snap = store.snapshot();
    assert_eq!(snap.len(), 2);
    assert_eq!(snap[0].track_id, "x");
    assert_eq!(snap[0].title, "title of x");
    assert_eq!(snap[0].author, "author of x");
    assert!(matches!(snap[0].state, JobState::Claimed));
    assert!(matches!(snap[1].state, JobState::Queued));
}

#[test]
fn estimate_remaining_exact_values() {
    // 100 s elapsed, one third complete: two thirds remain = 300 s
    assert_eq!(estimate_remaining(100, 500, 1500, 86400), 300);
    // nothing measurable finished yet: saturate at the cap
    assert_eq!(estimate_remaining(100, 0, 2000, 86400), 86400);
    // the estimate itself saturates at the cap
    assert_eq!(estimate_remaining(50000, 1, 1000000, 86400), 86400);
    // nothing remains
    assert_eq!(estimate_remaining(123, 4000, 0, 86400), 0);
}

#[test]
fn aggregate_progress_counts_milli_units() {
    let mut store = JobStore::new();
    store.enqueue(track("d")).unwrap();
    store.enqueue(track("s")).unwrap();
    store.enqueue(track("f")).unwrap();
    store.enqueue(track("w")).unwrap(); // stays queued
    let hd = store.claim_next().unwrap();
    advance(&mut store, hd, PipelineEvent::StreamOpened { total: Some(1000) });
    advance(&mut store, hd, PipelineEvent::ChunkRead { bytes: 500 });
    let hs = store.claim_next().unwrap();
    advance(&mut store, hs, PipelineEvent::OutputChecked { exists: true });
    let hf = store.claim_next().unwrap();
    advance(
        &mut store,
        hf,
        PipelineEvent::StreamFailed { message: "gone".to_string() },
    );
    let (completed, remaining) = down_on_spot::aggregate_progress(&store.snapshot());
    // 500 from the half-downloaded job + 1000 from the failure; the skip counts nothing
    assert_eq!(completed, 1500);
    // 1000 owed by the queued job + 500 still missing from the download
    assert_eq!(remaining, 1500);
}

#[test]
fn event_log_discards_oldest_beyond_bound() {
    let mut log = EventLog::new(3);
    for msg in ["one", "two", "three", "four", "five"] {
        log.push(msg.to_string());
    }
    let entries = log.entries();
    assert_eq!(entries.len(), 3);
    assert_eq!(entries[0], "three");
    assert_eq!(entries[1], "four");
    assert_eq!(entries[2], "five");
}
