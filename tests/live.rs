use simple_sql_profiler::live::LiveTracker;
use simple_sql_profiler::model::QueryEvent;

fn running_row(session_id: i32, start_time: &str, cpu: i32) -> QueryEvent {
    QueryEvent {
        id: String::new(),
        session_id,
        start_time: start_time.to_string(),
        event_name: "running_request".to_string(),
        database_name: "db".to_string(),
        cpu_time: cpu,
        elapsed_time: cpu,
        physical_reads: 0,
        writes: 0,
        logical_reads: 0,
        row_count: 0,
        sql_text: "waitfor delay '00:00:05'".to_string(),
        current_statement: "waitfor delay '00:00:05'".to_string(),
        login_name: "sa".to_string(),
        host_name: "h".to_string(),
        program_name: "p".to_string(),
        captured_at: String::new(),
        event_status: String::new(),
    }
}

#[test]
fn live_requests_disappearance() {
    let mut t = LiveTracker::new();
    let tick1 = t.observe(vec![running_row(55, "2024-01-01T00:00:00.100", 1)], &"t1".to_string());
    assert_eq!(tick1.len(), 1);
    assert_eq!(tick1[0].event_status, "running");
    assert_eq!(tick1[0].session_id, 55);
    assert_eq!(tick1[0].id.len(), 36);
    assert_eq!(tick1[0].captured_at, "t1");
    let tick2 = t.observe(Vec::new(), &"t2".to_string());
    assert_eq!(tick2.len(), 1);
    assert_eq!(tick2[0].event_status, "completed");
    assert_eq!(tick2[0].id, tick1[0].id);
    assert_eq!(tick2[0].start_time, "2024-01-01T00:00:00.100");
    assert_eq!(tick2[0].captured_at, "t2");
    assert!(t.seen.is_empty());
    let tick3 = t.observe(Vec::new(), &"t3".to_string());
    assert!(tick3.is_empty());
}

#[test]
fn live_request_keeps_identity_while_running() {
    let mut t = LiveTracker::new();
    let a = t.observe(vec![running_row(60, "2024-01-01T00:00:01.000", 1)], &"t1".to_string());
    let b = t.observe(
        vec![running_row(60, "2024-01-01T00:00:01.000", 9), running_row(61, "2024-01-01T00:00:02.000", 1)],
        &"t2".to_string(),
    );
    assert_eq!(b.len(), 2);
    assert_eq!(b[0].id, a[0].id);
    assert_eq!(b[0].cpu_time, 9);
    assert_eq!(b[0].event_status, "running");
    assert_ne!(b[1].id, a[0].id);
    assert_eq!(t.seen.len(), 2);
}

#[test]
fn clearing_forgets_requests() {
    let mut t = LiveTracker::new();
    t.observe(vec![running_row(70, "2024-01-01T00:00:01.000", 1)], &"t1".to_string());
    t.clear();
    assert!(t.observe(Vec::new(), &"t2".to_string()).is_empty());
}
