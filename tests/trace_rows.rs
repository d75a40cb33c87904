use simple_sql_profiler::model::ActiveTrace;
use simple_sql_profiler::poll::poll_failure_status;
use simple_sql_profiler::trace::{
    is_transient_trace_file_error, matches_transient_lowered, millis_from, normalize_trace_row,
    normalize_trace_rows, trace_from_rows, TraceMetaRow, TraceRow,
};
use simple_sql_profiler::text::{chars_of, contains_text, text_less};

fn trace_row(class: Option<i32>) -> TraceRow {
    TraceRow {
        event_class: class,
        start_time: Some("2024-01-01T00:00:00.100".to_string()),
        event_sequence: Some(12),
        duration_us: Some(1_500_000),
        cpu_ms: Some(42),
        reads: Some(100),
        writes: Some(3),
        row_count: Some(7),
        text_data: Some("exec sp_who".to_string()),
        database_name: Some("master".to_string()),
        login_name: Some("sa".to_string()),
        host_name: Some("box".to_string()),
        program_name: Some("ssms".to_string()),
        session_id: Some(55),
    }
}

#[test]
fn rpc_row_normalises() {
    let p = normalize_trace_row(trace_row(Some(10))).unwrap();
    assert_eq!(p.event_sequence, 12);
    let e = p.event;
    assert_eq!(e.event_name, "rpc_completed");
    assert_eq!(e.start_time, "2024-01-01T00:00:00.100");
    assert_eq!(e.elapsed_time, 1500);
    assert_eq!(e.cpu_time, 42);
    assert_eq!(e.logical_reads, 100);
    assert_eq!(e.physical_reads, 0);
    assert_eq!(e.writes, 3);
    assert_eq!(e.row_count, 7);
    assert_eq!(e.sql_text, "exec sp_who");
    assert_eq!(e.current_statement, "exec sp_who");
    assert_eq!(e.session_id, 55);
    assert_eq!(e.database_name, "master");
    assert_eq!(e.login_name, "sa");
    assert_eq!(e.host_name, "box");
    assert_eq!(e.program_name, "ssms");
    assert_eq!(e.id, "");
    assert_eq!(e.captured_at, "");
    assert_eq!(e.event_status, "");
}

#[test]
fn batch_row_has_empty_current_statement() {
    let e = normalize_trace_row(trace_row(Some(12))).unwrap().event;
    assert_eq!(e.event_name, "sql_batch_completed");
    assert_eq!(e.sql_text, "exec sp_who");
    assert_eq!(e.current_statement, "");
}

#[test]
fn other_classes_are_dropped() {
    assert!(normalize_trace_row(trace_row(Some(11))).is_none());
    assert!(normalize_trace_row(trace_row(None)).is_none());
    let out = normalize_trace_rows(vec![trace_row(Some(13)), trace_row(Some(12)), trace_row(Some(10))]);
    assert_eq!(out.len(), 2);
    assert_eq!(out[0].event.event_name, "sql_batch_completed");
    assert_eq!(out[1].event.event_name, "rpc_completed");
}

#[test]
fn missing_columns_become_defaults() {
    let row = TraceRow {
        event_class: Some(12),
        start_time: None,
        event_sequence: None,
        duration_us: None,
        cpu_ms: None,
        reads: None,
        writes: None,
        row_count: None,
        text_data: None,
        database_name: None,
        login_name: None,
        host_name: None,
        program_name: None,
        session_id: None,
    };
    let p = normalize_trace_row(row).unwrap();
    assert_eq!(p.event_sequence, 0);
    assert_eq!(p.event.start_time, "");
    assert_eq!(p.event.elapsed_time, 0);
    assert_eq!(p.event.session_id, 0);
    assert_eq!(p.event.sql_text, "");
}

#[test]
fn microseconds_to_milliseconds() {
    assert_eq!(millis_from(0), 0);
    assert_eq!(millis_from(999), 0);
    assert_eq!(millis_from(1_000), 1);
    assert_eq!(millis_from(2_345_678), 2_345);
    assert_eq!(millis_from(-5_000), 0);
    assert_eq!(millis_from(i64::MAX), i32::MAX);
    assert_eq!(millis_from(2_147_483_647_000), i32::MAX);
    assert_eq!(millis_from(2_147_483_648_000), i32::MAX);
}

#[test]
fn large_cpu_saturates_and_negative_counters_clamp() {
    let mut r = trace_row(Some(10));
    r.cpu_ms = Some(5_000_000_000);
    r.reads = Some(-4);
    let e = normalize_trace_row(r).unwrap().event;
    assert_eq!(e.cpu_time, i32::MAX);
    assert_eq!(e.logical_reads, 0);
}

#[test]
fn trace_metadata_first_valid_row() {
    let rows = vec![
        TraceMetaRow { trace_id: Some(0), trace_file: Some("a.trc".to_string()) },
        TraceMetaRow { trace_id: Some(3), trace_file: Some(String::new()) },
        TraceMetaRow { trace_id: None, trace_file: Some("b.trc".to_string()) },
        TraceMetaRow { trace_id: Some(2), trace_file: Some("c.trc".to_string()) },
        TraceMetaRow { trace_id: Some(5), trace_file: Some("d.trc".to_string()) },
    ];
    assert_eq!(
        trace_from_rows(rows),
        Ok(ActiveTrace { trace_id: 2, trace_file: "c.trc".to_string() })
    );
}

#[test]
fn trace_metadata_invalid() {
    let rows = vec![TraceMetaRow { trace_id: Some(-1), trace_file: Some("a.trc".to_string()) }];
    assert_eq!(
        trace_from_rows(rows),
        Err("SQL Trace creation returned invalid trace metadata".to_string())
    );
    assert!(trace_from_rows(Vec::new()).is_err());
}

#[test]
fn trace_file_roll_is_transient() {
    assert!(is_transient_trace_file_error("Trace poll query failed: Token error: 'x' (code: 19049, state: 1)"));
    assert!(is_transient_trace_file_error("ERROR CODE: 19049"));
    assert!(is_transient_trace_file_error("There are NO more files ... sys.FN_TRACE_GETTABLE"));
    assert!(!is_transient_trace_file_error("there are no more files"));
    assert!(!is_transient_trace_file_error("Login failed for user 'sa'"));
    assert!(!is_transient_trace_file_error(""));
}

#[test]
fn lowered_matcher_is_exact() {
    assert!(matches_transient_lowered("code: 19049"));
    assert!(!matches_transient_lowered("CODE: 19049"));
    assert!(matches_transient_lowered("there are no more files in fn_trace_gettable"));
    assert!(!matches_transient_lowered("fn_trace_gettable"));
}

#[test]
fn classic_trace_file_roll_skips_tick() {
    assert_eq!(poll_failure_status("Trace poll query failed: (code: 19049)".to_string()), None);
    let s = poll_failure_status("Trace poll query failed: timeout".to_string()).unwrap();
    assert!(s.connected);
    assert!(!s.capturing);
    assert_eq!(s.error, Some("Trace poll query failed: timeout".to_string()));
}

#[test]
fn text_helpers() {
    let a = chars_of("2024-01-01T00:00:00.1");
    let b = chars_of("2024-01-01T00:00:00.2");
    assert!(text_less(&a, &b));
    assert!(!text_less(&b, &a));
    assert!(!text_less(&a, &a));
    assert!(text_less(&chars_of("ab"), &chars_of("abc")));
    assert!(contains_text(&chars_of("hello world"), &chars_of("o w")));
    assert!(!contains_text(&chars_of("hello"), &chars_of("hello!")));
    assert!(contains_text(&chars_of(""), &chars_of("")));
}
