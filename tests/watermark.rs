use simple_sql_profiler::model::{PolledEvent, QueryEvent};
use simple_sql_profiler::poll::{publish_tick, stamp_events};
use simple_sql_profiler::watermark::{Watermark, MIN_TIMESTAMP};

fn event(session_id: i32, start_time: &str, sql: &str) -> QueryEvent {
    QueryEvent {
        id: String::new(),
        session_id,
        start_time: start_time.to_string(),
        event_name: "rpc_completed".to_string(),
        database_name: "master".to_string(),
        cpu_time: 1,
        elapsed_time: 2,
        physical_reads: 0,
        writes: 0,
        logical_reads: 5,
        row_count: 1,
        sql_text: sql.to_string(),
        current_statement: sql.to_string(),
        login_name: "sa".to_string(),
        host_name: "box".to_string(),
        program_name: "app".to_string(),
        captured_at: String::new(),
        event_status: String::new(),
    }
}

fn row(start_time: &str, seq: i64, sql: &str) -> PolledEvent {
    PolledEvent { event: event(60, start_time, sql), event_sequence: seq }
}

fn three_rows() -> Vec<PolledEvent> {
    vec![
        row("2024-01-01T00:00:00.1000000", 0, "select 1"),
        row("2024-01-01T00:00:00.2000000", 0, "select 2"),
        row("2024-01-01T00:00:00.3000000", 0, "select 3"),
    ]
}

#[test]
fn new_watermark_starts_far_in_the_past() {
    let w = Watermark::new();
    assert_eq!(w.last_timestamp, MIN_TIMESTAMP);
    assert_eq!(w.last_event_sequence, -1);
    assert!(w.fallback.is_empty());
}

#[test]
fn happy_path_publishes_three_in_order() {
    let mut w = Watermark::new();
    let out = publish_tick(&mut w, three_rows());
    assert_eq!(out.len(), 3);
    assert_eq!(out[0].start_time, "2024-01-01T00:00:00.1000000");
    assert_eq!(out[1].start_time, "2024-01-01T00:00:00.2000000");
    assert_eq!(out[2].start_time, "2024-01-01T00:00:00.3000000");
    assert_eq!(w.last_timestamp, "2024-01-01T00:00:00.3000000");
    for e in &out {
        assert_eq!(e.event_status, "completed");
        assert_eq!(e.id.len(), 36);
        assert_eq!(e.captured_at, out[0].captured_at);
        assert!(!e.captured_at.is_empty());
    }
    assert_ne!(out[0].id, out[1].id);
    assert_ne!(out[1].id, out[2].id);
    assert_eq!(out[2].sql_text, "select 3");
}

#[test]
fn duplicate_poll_publishes_nothing() {
    let mut w = Watermark::new();
    let first = publish_tick(&mut w, three_rows());
    assert_eq!(first.len(), 3);
    let before = w.clone();
    let second = publish_tick(&mut w, three_rows());
    assert_eq!(second.len(), 0);
    assert_eq!(w, before);
}

#[test]
fn same_timestamp_same_sequence_is_discarded() {
    let mut w = Watermark::new();
    let out = w.accept(vec![row("2024-01-01T00:00:01.000", 7, "a")]);
    assert_eq!(out.len(), 1);
    assert_eq!(w.last_event_sequence, 7);
    let again = w.accept(vec![row("2024-01-01T00:00:01.000", 7, "a")]);
    assert_eq!(again.len(), 0);
    let next = w.accept(vec![row("2024-01-01T00:00:01.000", 8, "b")]);
    assert_eq!(next.len(), 1);
    assert_eq!(w.last_event_sequence, 8);
}

#[test]
fn unsequenced_row_across_two_polls_published_once() {
    let mut w = Watermark::new();
    let a = w.accept(vec![row("2024-01-01T00:00:02.000", 0, "x")]);
    let b = w.accept(vec![row("2024-01-01T00:00:02.000", 0, "x")]);
    assert_eq!(a.len(), 1);
    assert_eq!(b.len(), 0);
    assert_eq!(w.last_event_sequence, 0);
    assert_eq!(w.fallback.len(), 1);
}

#[test]
fn unsequenced_rows_with_other_fingerprints_all_published() {
    let mut w = Watermark::new();
    let out = w.accept(vec![
        row("2024-01-01T00:00:02.000", 0, "x"),
        row("2024-01-01T00:00:02.000", 0, "y"),
        row("2024-01-01T00:00:02.000", -3, "x"),
    ]);
    assert_eq!(out.len(), 2);
    assert_eq!(out[1].event.sql_text, "y");
}

#[test]
fn older_row_is_discarded() {
    let mut w = Watermark::new();
    w.accept(vec![row("2024-01-01T00:00:05.000", 3, "a")]);
    let out = w.accept(vec![row("2024-01-01T00:00:04.999", 9, "b")]);
    assert_eq!(out.len(), 0);
    assert_eq!(w.last_timestamp, "2024-01-01T00:00:05.000");
    assert_eq!(w.last_event_sequence, 3);
}

#[test]
fn later_timestamp_resets_sequence_and_fingerprints() {
    let mut w = Watermark::new();
    w.accept(vec![row("2024-01-01T00:00:05.000", 0, "a"), row("2024-01-01T00:00:05.000", 40, "b")]);
    assert_eq!(w.last_event_sequence, 40);
    let out = w.accept(vec![row("2024-01-01T00:00:06.000", 2, "c")]);
    assert_eq!(out.len(), 1);
    assert_eq!(w.last_event_sequence, 2);
    assert!(w.fallback.is_empty());
}

#[test]
fn sequenced_row_after_unsequenced_is_kept() {
    let mut w = Watermark::new();
    let out = w.accept(vec![row("2024-01-01T00:00:05.000", 0, "a"), row("2024-01-01T00:00:05.000", 1, "b")]);
    assert_eq!(out.len(), 2);
    assert_eq!(w.last_event_sequence, 1);
}

#[test]
fn published_start_times_never_decrease() {
    let mut w = Watermark::new();
    let out = w.accept(vec![
        row("2024-01-01T00:00:03.000", 1, "a"),
        row("2024-01-01T00:00:01.000", 2, "b"),
        row("2024-01-01T00:00:03.000", 2, "c"),
        row("2024-01-01T00:00:04.000", 1, "d"),
    ]);
    let times: Vec<&str> = out.iter().map(|p| p.event.start_time.as_str()).collect();
    assert_eq!(times, vec!["2024-01-01T00:00:03.000", "2024-01-01T00:00:03.000", "2024-01-01T00:00:04.000"]);
}

#[test]
fn empty_tick_changes_nothing() {
    let mut w = Watermark::new();
    let out = publish_tick(&mut w, Vec::new());
    assert!(out.is_empty());
    assert_eq!(w, Watermark::new());
}

#[test]
fn stamping_keeps_fields_and_sets_status() {
    let out = stamp_events(vec![row("2024-01-01T00:00:00.5", 4, "q")], &"2026-01-01T00:00:00+00:00".to_string());
    assert_eq!(out.len(), 1);
    assert_eq!(out[0].captured_at, "2026-01-01T00:00:00+00:00");
    assert_eq!(out[0].event_status, "completed");
    assert_eq!(out[0].sql_text, "q");
    assert_eq!(out[0].session_id, 60);
    assert_eq!(out[0].id.len(), 36);
}
