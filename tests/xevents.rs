use simple_sql_profiler::poll::publish_tick;
use simple_sql_profiler::watermark::Watermark;
use simple_sql_profiler::xevents::{normalize_xe_row, XeRow};

fn xe_row(name: &str, timestamp: &str) -> XeRow {
    XeRow {
        event_name: Some(name.to_string()),
        timestamp: Some(timestamp.to_string()),
        duration_us: Some(2_500),
        cpu_us: Some(1_999),
        physical_reads: Some(1),
        logical_reads: Some(20),
        writes: Some(0),
        row_count: Some(3),
        statement: Some("exec dbo.p".to_string()),
        batch_text: Some("select 1; select 2".to_string()),
        database_name: Some("app".to_string()),
        username: Some("u".to_string()),
        client_hostname: Some("h".to_string()),
        client_app_name: Some("svc".to_string()),
        session_id: Some(71),
    }
}

#[test]
fn xe_rpc_row_normalises() {
    let p = normalize_xe_row(xe_row("rpc_completed", "2024-01-01T00:00:00.1000000")).unwrap();
    assert_eq!(p.event_sequence, 0);
    assert_eq!(p.event.event_name, "rpc_completed");
    assert_eq!(p.event.elapsed_time, 2);
    assert_eq!(p.event.cpu_time, 1);
    assert_eq!(p.event.physical_reads, 1);
    assert_eq!(p.event.logical_reads, 20);
    assert_eq!(p.event.row_count, 3);
    assert_eq!(p.event.sql_text, "exec dbo.p");
    assert_eq!(p.event.current_statement, "exec dbo.p");
    assert_eq!(p.event.login_name, "u");
    assert_eq!(p.event.host_name, "h");
    assert_eq!(p.event.program_name, "svc");
    assert_eq!(p.event.session_id, 71);
    assert_eq!(p.event.start_time, "2024-01-01T00:00:00.1000000");
}

#[test]
fn xe_batch_row_normalises() {
    let p = normalize_xe_row(xe_row("sql_batch_completed", "2024-01-01T00:00:00.1000000")).unwrap();
    assert_eq!(p.event.event_name, "sql_batch_completed");
    assert_eq!(p.event.sql_text, "select 1; select 2");
    assert_eq!(p.event.current_statement, "");
}

#[test]
fn xe_other_events_dropped() {
    assert!(normalize_xe_row(xe_row("rpc_starting", "2024-01-01T00:00:00.1000000")).is_none());
    assert!(normalize_xe_row(xe_row("RPC_COMPLETED", "2024-01-01T00:00:00.1000000")).is_none());
    let mut r = xe_row("rpc_completed", "x");
    r.event_name = None;
    assert!(normalize_xe_row(r).is_none());
}

#[test]
fn happy_path_extended_events() {
    let rows: Vec<_> = ["1000000", "2000000", "3000000"]
        .iter()
        .map(|f| normalize_xe_row(xe_row("rpc_completed", &format!("2024-01-01T00:00:00.{f}"))).unwrap())
        .collect();
    let mut w = Watermark::new();
    let out = publish_tick(&mut w, rows.clone());
    assert_eq!(out.len(), 3);
    assert_eq!(out[0].start_time, "2024-01-01T00:00:00.1000000");
    assert_eq!(out[1].start_time, "2024-01-01T00:00:00.2000000");
    assert_eq!(out[2].start_time, "2024-01-01T00:00:00.3000000");
    assert_eq!(w.last_timestamp, "2024-01-01T00:00:00.3000000");
    let again = publish_tick(&mut w, rows);
    assert!(again.is_empty());
    assert_eq!(w.last_timestamp, "2024-01-01T00:00:00.3000000");
}
