//! End-to-end scenarios for the stream driver, the driver loop, the sink and
//! the checkpoint discipline.

use block_sink::checkpoint::{load_persisted_cursor, persist_cursor, CheckpointStore};
use block_sink::driver::{DriverAction, DriverPhase, StreamDriver, TransportEvent};
use block_sink::driver_loop::{handle_event, run_driver_loop};
use block_sink::event::{BlockEvent, NewBlock, UndoSignal};
use block_sink::retry::RetryState;
use block_sink::sink::{
    build_block_record, process_block_scoped_data, process_block_undo_signal, CacheSink,
};
use block_sink::{BACKOFF_BASE_MS, BACKOFF_MAX_MS};

fn block(n: u64) -> NewBlock {
    NewBlock {
        block_number: n,
        block_id: format!("id{}", n),
        timestamp_seconds: 1_600_000_000 + n as i64,
        timestamp_nanos: 0,
        payload: vec![n as u8],
        cursor: format!("c{}", n),
    }
}

fn undo(n: u64) -> UndoSignal {
    UndoSignal {
        last_valid_cursor: format!("u{}", n),
        last_valid_block_number: n,
    }
}

#[test]
fn straight_range_applies_all_blocks_in_order() {
    // Start block 100, stop block 105, no forks: exactly blocks 100..104 are
    // applied, in order, then the stream ends; the final persisted cursor is
    // block 104's.
    let mut driver = StreamDriver::new("map_blocks".to_string(), 100, 105, None);
    let mut sink = CacheSink::new();
    let mut store = CheckpointStore::new(None);

    assert!(matches!(
        driver.step(TransportEvent::Opened),
        DriverAction::ReadNext
    ));
    let mut applied = Vec::new();
    for n in 100..105u64 {
        let action = driver.step(TransportEvent::BlockData(block(n)));
        let event = match action {
            DriverAction::Emit(e) => e,
            other => panic!("expected an emitted event, got {:?}", other),
        };
        handle_event(&mut sink, &mut store, &event).unwrap();
        let cursor = match &event {
            BlockEvent::New(b) => b.cursor.clone(),
            BlockEvent::Undo(u) => u.last_valid_cursor.clone(),
        };
        assert_eq!(
            load_persisted_cursor(&store).unwrap(),
            Some(format!("c{}", n))
        );
        driver.acknowledge(cursor);
        if let BlockEvent::New(b) = event {
            applied.push(b.block_number);
        }
    }
    assert_eq!(applied, vec![100, 101, 102, 103, 104]);
    assert!(matches!(
        driver.step(TransportEvent::Closed),
        DriverAction::EndOfStream
    ));
    assert_eq!(driver.phase, DriverPhase::Terminated);
    assert!(!driver.fatal);
    assert_eq!(sink.len(), 5);
    assert_eq!(
        load_persisted_cursor(&store).unwrap(),
        Some("c104".to_string())
    );
    let rec = sink.get(104).unwrap();
    assert_eq!(rec.head_block_number, 104);
    assert_eq!(rec.head_block_id, "id104");
}

#[test]
fn undo_and_redelivery_match_straight_line() {
    // Blocks 100,101,102 applied, then an undo back to 100, then 101,102
    // re-delivered: one rollback, and the sink ends identical to the
    // straight-line run.
    let mut sink = CacheSink::new();
    let mut store = CheckpointStore::new(None);
    for n in [100, 101, 102] {
        handle_event(&mut sink, &mut store, &BlockEvent::New(block(n))).unwrap();
    }
    handle_event(&mut sink, &mut store, &BlockEvent::Undo(undo(100))).unwrap();
    assert_eq!(sink.len(), 1);
    assert!(sink.get(101).is_none());
    assert!(sink.get(102).is_none());
    for n in [101, 102] {
        handle_event(&mut sink, &mut store, &BlockEvent::New(block(n))).unwrap();
    }

    let mut straight = CacheSink::new();
    let mut straight_store = CheckpointStore::new(None);
    for n in [100, 101, 102] {
        handle_event(&mut straight, &mut straight_store, &BlockEvent::New(block(n))).unwrap();
    }

    assert_eq!(sink.len(), straight.len());
    for n in [100, 101, 102] {
        assert_eq!(sink.get(n), straight.get(n));
    }
}

#[test]
fn undo_then_next_block_rolls_back_first() {
    // An undo for block N followed by block N+1: the rollback is visible
    // before the next apply, and in between the checkpoint holds the undo's
    // cursor.
    let mut sink = CacheSink::new();
    let mut store = CheckpointStore::new(None);
    for n in [100, 101] {
        handle_event(&mut sink, &mut store, &BlockEvent::New(block(n))).unwrap();
    }
    handle_event(&mut sink, &mut store, &BlockEvent::Undo(undo(100))).unwrap();
    assert_eq!(
        load_persisted_cursor(&store).unwrap(),
        Some("u100".to_string())
    );
    assert_eq!(sink.len(), 1);
    assert!(sink.get(101).is_none());
    handle_event(&mut sink, &mut store, &BlockEvent::New(block(101))).unwrap();
    assert_eq!(sink.len(), 2);
    assert_eq!(
        load_persisted_cursor(&store).unwrap(),
        Some("c101".to_string())
    );
}

#[test]
fn applying_same_block_twice_is_idempotent() {
    // Post-reconnect redelivery: the same new-block event applied twice in a
    // row leaves the sink identical to applying it once.
    let mut once = CacheSink::new();
    let mut twice = CacheSink::new();
    process_block_scoped_data(&mut once, &block(7)).unwrap();
    process_block_scoped_data(&mut twice, &block(7)).unwrap();
    process_block_scoped_data(&mut twice, &block(7)).unwrap();
    assert_eq!(once.len(), twice.len());
    assert_eq!(once.get(7), twice.get(7));
}

#[test]
fn reconnect_session_uses_persisted_cursor() {
    // Transport fails after block 100 is applied but before block 101
    // arrives: the rebuilt session carries the cursor persisted for block
    // 100, not any later received-but-unapplied value.
    let mut driver = StreamDriver::new("map_blocks".to_string(), 100, 0, None);
    let mut sink = CacheSink::new();
    let mut store = CheckpointStore::new(None);
    driver.step(TransportEvent::Opened);
    let action = driver.step(TransportEvent::BlockData(block(100)));
    if let DriverAction::Emit(event) = action {
        handle_event(&mut sink, &mut store, &event).unwrap();
        driver.acknowledge("c100".to_string());
    } else {
        panic!("expected an emitted event");
    }
    // A later message is received but its apply never completes: the driver's
    // session cursor advances, the acknowledged cursor does not.
    driver.step(TransportEvent::BlockData(block(101)));
    assert_eq!(driver.session.cursor, Some("c101".to_string()));

    let action = driver.step(TransportEvent::ReadFailed);
    assert!(matches!(action, DriverAction::Wait { .. }));
    assert_eq!(driver.phase, DriverPhase::Reconnecting);
    let action = driver.step(TransportEvent::Woke);
    assert!(matches!(action, DriverAction::OpenSession));
    assert_eq!(driver.phase, DriverPhase::Connecting);
    assert_eq!(driver.session.cursor, Some("c100".to_string()));
}

#[test]
fn restart_resumes_exactly_at_checkpoint() {
    // A driver restarted from a persisted cursor opens its first session at
    // exactly that cursor.
    let mut store = CheckpointStore::new(None);
    persist_cursor(&mut store, "c200".to_string()).unwrap();
    let resume = load_persisted_cursor(&store).unwrap();
    let driver = StreamDriver::new("map_blocks".to_string(), 100, 0, resume);
    assert_eq!(driver.session.cursor, Some("c200".to_string()));
    assert_eq!(driver.acked_cursor, Some("c200".to_string()));
    assert_eq!(driver.phase, DriverPhase::Connecting);
}

#[test]
fn backoff_is_nondecreasing_capped_and_resets() {
    // On consecutive transient failures the delays never decrease and stay
    // under the ceiling; one success resets the next delay to the base.
    let mut retry = RetryState::new();
    assert_eq!(retry.next_delay_ms(), BACKOFF_BASE_MS);
    let mut last = 0u64;
    for _ in 0..20 {
        let d = retry.next_delay_ms();
        assert!(d >= last);
        assert!(d <= BACKOFF_MAX_MS);
        last = d;
        retry.on_failure();
    }
    assert_eq!(retry.next_delay_ms(), BACKOFF_MAX_MS);
    retry.on_success();
    assert_eq!(retry.next_delay_ms(), BACKOFF_BASE_MS);
}

#[test]
fn backoff_doubles_from_base() {
    let mut retry = RetryState::new();
    retry.on_failure();
    assert_eq!(retry.next_delay_ms(), 2 * BACKOFF_BASE_MS);
    retry.on_failure();
    assert_eq!(retry.next_delay_ms(), 4 * BACKOFF_BASE_MS);
}

#[test]
fn fatal_open_failure_terminates() {
    let mut driver = StreamDriver::new("map_blocks".to_string(), 1, 0, None);
    let action = driver.step(TransportEvent::OpenFailed { transient: false });
    assert!(matches!(action, DriverAction::FatalStop));
    assert_eq!(driver.phase, DriverPhase::Terminated);
    assert!(driver.fatal);
}

#[test]
fn transient_open_failure_waits_with_base_delay() {
    let mut driver = StreamDriver::new("map_blocks".to_string(), 1, 0, None);
    let action = driver.step(TransportEvent::OpenFailed { transient: true });
    match action {
        DriverAction::Wait { delay_ms } => assert_eq!(delay_ms, BACKOFF_BASE_MS),
        other => panic!("expected a wait, got {:?}", other),
    }
    assert_eq!(driver.phase, DriverPhase::Reconnecting);
}

#[test]
fn run_driver_loop_processes_batch_in_order() {
    let mut sink = CacheSink::new();
    let mut store = CheckpointStore::new(None);
    let events = vec![
        BlockEvent::New(block(10)),
        BlockEvent::New(block(11)),
        BlockEvent::Undo(undo(10)),
        BlockEvent::New(block(11)),
    ];
    run_driver_loop(&mut sink, &mut store, &events).unwrap();
    assert_eq!(sink.len(), 2);
    assert!(sink.get(10).is_some());
    assert!(sink.get(11).is_some());
    assert_eq!(
        load_persisted_cursor(&store).unwrap(),
        Some("c11".to_string())
    );
}

#[test]
fn rollback_keeps_only_last_valid_blocks() {
    let mut sink = CacheSink::new();
    for n in [5, 6, 7, 8] {
        process_block_scoped_data(&mut sink, &block(n)).unwrap();
    }
    process_block_undo_signal(&mut sink, &undo(6)).unwrap();
    assert_eq!(sink.len(), 2);
    assert!(sink.get(5).is_some());
    assert!(sink.get(6).is_some());
    assert!(sink.get(7).is_none());
    assert!(sink.get(8).is_none());
}

#[test]
fn block_record_carries_rendered_timestamp() {
    let b = block(42);
    let rec = build_block_record(&b);
    assert_eq!(rec.head_block_number, 42);
    assert_eq!(rec.head_block_id, "id42");
    let expected = prost_types::Timestamp {
        seconds: b.timestamp_seconds,
        nanos: b.timestamp_nanos,
    }
    .to_string();
    assert_eq!(rec.head_block_time, expected);
    assert!(!rec.head_block_time.is_empty());
}
