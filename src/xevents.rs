//! The extended-events backend: rows shredded from the `SimpleSQLProfiler`
//! event session's ring buffer, one per completed RPC or batch.
use vstd::prelude::*;
use crate::model::{same_content, PolledEvent, QueryEvent};
use crate::text::same_text;
use crate::trace::{
    counter, int_or_zero, millis_from, millis_from_micros, narrow_i64, take_int, take_text,
    text_or_empty, to_counter,
};

verus! {

/// Period of the extended-events poll, in milliseconds.
pub const XE_POLL_INTERVAL_MS: u64 = 500;

/// One event of the ring buffer, as the driver hands it over. Durations and
/// CPU time are in microseconds.
#[derive(Debug, Clone, PartialEq, Eq)]
pub struct XeRow {
    pub event_name: Option<String>,
    pub timestamp: Option<String>,
    pub duration_us: Option<i64>,
    pub cpu_us: Option<i64>,
    pub physical_reads: Option<i64>,
    pub logical_reads: Option<i64>,
    pub writes: Option<i64>,
    pub row_count: Option<i64>,
    pub statement: Option<String>,
    pub batch_text: Option<String>,
    pub database_name: Option<String>,
    pub username: Option<String>,
    pub client_hostname: Option<String>,
    pub client_app_name: Option<String>,
    pub session_id: Option<i32>,
}

pub open spec fn is_rpc_name(name: Option<String>) -> bool {
    name is Some && name->0@ == "rpc_completed"@
}

pub open spec fn is_batch_name(name: Option<String>) -> bool {
    name is Some && name->0@ == "sql_batch_completed"@
}

/// The event that an extended-events row normalises to; events carry no
/// ordinal, so the watermark tells them apart by fingerprint.
pub open spec fn xe_normalised_from(row: XeRow, p: PolledEvent) -> bool {
    let e = p.event;
    let rpc = is_rpc_name(row.event_name);
    let text = if rpc { text_or_empty(row.statement) } else { text_or_empty(row.batch_text) };
    &&& e.event_name@ == (if rpc { "rpc_completed"@ } else { "sql_batch_completed"@ })
    &&& e.start_time@ == text_or_empty(row.timestamp)
    &&& p.event_sequence == 0
    &&& e.elapsed_time == millis_from_micros(int_or_zero(row.duration_us))
    &&& e.cpu_time == millis_from_micros(int_or_zero(row.cpu_us))
    &&& e.physical_reads == counter(int_or_zero(row.physical_reads))
    &&& e.logical_reads == counter(int_or_zero(row.logical_reads))
    &&& e.writes == counter(int_or_zero(row.writes))
    &&& e.row_count == counter(int_or_zero(row.row_count))
    &&& e.sql_text@ == text
    &&& e.current_statement@ == (if rpc { text } else { Seq::empty() })
    &&& e.database_name@ == text_or_empty(row.database_name)
    &&& e.login_name@ == text_or_empty(row.username)
    &&& e.host_name@ == text_or_empty(row.client_hostname)
    &&& e.program_name@ == text_or_empty(row.client_app_name)
    &&& e.session_id == (match row.session_id {
        Some(s) => s,
        None => 0i32,
    })
    &&& e.id@ == Seq::<char>::empty()
    &&& e.captured_at@ == Seq::<char>::empty()
    &&& e.event_status@ == Seq::<char>::empty()
}

/// Maps one extended-events row to the unified event; `None` for events
/// other than `rpc_completed` and `sql_batch_completed`.
pub fn normalize_xe_row(row: XeRow) -> (r: Option<PolledEvent>)
    ensures
        r is Some <==> (is_rpc_name(row.event_name) || is_batch_name(row.event_name)),
        r is Some ==> xe_normalised_from(row, r->0),
{
    let (rpc, batch) = match &row.event_name {
        Some(name) => (same_text(name.as_str(), "rpc_completed"), same_text(name.as_str(), "sql_batch_completed")),
        None => (false, false),
    };
    if !rpc && !batch {
        return None;
    }
    let event_name = if rpc {
        String::from_str("rpc_completed")
    } else {
        String::from_str("sql_batch_completed")
    };
    let (sql_text, current_statement) = if rpc {
        let text = take_text(row.statement);
        (text.clone(), text)
    } else {
        (take_text(row.batch_text), String::new())
    };
    let event = QueryEvent {
        id: String::new(),
        session_id: match row.session_id {
            Some(s) => s,
            None => 0,
        },
        start_time: take_text(row.timestamp),
        event_name,
        database_name: take_text(row.database_name),
        cpu_time: millis_from(take_int(row.cpu_us)),
        elapsed_time: millis_from(take_int(row.duration_us)),
        physical_reads: to_counter(take_int(row.physical_reads)),
        writes: to_counter(take_int(row.writes)),
        logical_reads: to_counter(take_int(row.logical_reads)),
        row_count: to_counter(take_int(row.row_count)),
        sql_text,
        current_statement,
        login_name: take_text(row.username),
        host_name: take_text(row.client_hostname),
        program_name: take_text(row.client_app_name),
        captured_at: String::new(),
        event_status: String::new(),
    };
    Some(PolledEvent { event, event_sequence: 0 })
}

/// Normalisation is deterministic: the same row, normalised twice, gives
/// events that differ at most in identity and capture time, with the same
/// event ordinal.
pub proof fn law_xe_normalisation_is_deterministic(row: XeRow, p: PolledEvent, q: PolledEvent)
    requires
        xe_normalised_from(row, p),
        xe_normalised_from(row, q),
    ensures
        same_content(p.event, q.event),
        p.event_sequence == q.event_sequence,
{
}

} // verus!
