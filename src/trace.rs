//! The classic server-side trace backend: what its poll rows and its arming
//! result mean, and which of its errors are transient.
use vstd::prelude::*;
use crate::model::{same_content, ActiveTrace, PolledEvent, QueryEvent};
use crate::text::{chars_of, contains_text, has_infix};

verus! {

/// Trace event class of a completed remote procedure call.
pub const RPC_COMPLETED_CLASS: i32 = 10;

/// Trace event class of a completed SQL batch.
pub const BATCH_COMPLETED_CLASS: i32 = 12;

/// One row of the trace poll, as the driver hands it over: each column is
/// absent when the server sent NULL or a value of another type.
#[derive(Debug, Clone, PartialEq, Eq)]
pub struct TraceRow {
    pub event_class: Option<i32>,
    pub start_time: Option<String>,
    pub event_sequence: Option<i64>,
    pub duration_us: Option<i64>,
    pub cpu_ms: Option<i64>,
    pub reads: Option<i64>,
    pub writes: Option<i64>,
    pub row_count: Option<i64>,
    pub text_data: Option<String>,
    pub database_name: Option<String>,
    pub login_name: Option<String>,
    pub host_name: Option<String>,
    pub program_name: Option<String>,
    pub session_id: Option<i32>,
}

/// One row of the result that arming the trace returns.
#[derive(Debug, Clone, PartialEq, Eq)]
pub struct TraceMetaRow {
    pub trace_id: Option<i32>,
    pub trace_file: Option<String>,
}

pub open spec fn text_or_empty(o: Option<String>) -> Seq<char> {
    match o {
        Some(s) => s@,
        None => Seq::empty(),
    }
}

pub open spec fn int_or_zero(o: Option<i64>) -> i64 {
    match o {
        Some(x) => x,
        None => 0,
    }
}

/// A counter never goes below zero.
pub open spec fn counter(x: i64) -> i64 {
    if x < 0 {
        0
    } else {
        x
    }
}

/// A non-negative count narrowed to 32 bits, saturating at the top.
pub open spec fn narrow(x: int) -> i32 {
    if x <= 0 {
        0
    } else if x > i32::MAX {
        i32::MAX
    } else {
        x as i32
    }
}

/// Whole milliseconds in `us` microseconds, narrowed to 32 bits.
pub open spec fn millis_from_micros(us: i64) -> i32 {
    narrow(us / 1000)
}

pub open spec fn is_known_class(class: Option<i32>) -> bool {
    class == Some(RPC_COMPLETED_CLASS) || class == Some(BATCH_COMPLETED_CLASS)
}

/// The event that `row` normalises to, field by field; `id`, `captured_at`
/// and `event_status` are left empty for the poll loop to fill.
pub open spec fn normalised_from(row: TraceRow, p: PolledEvent) -> bool {
    let e = p.event;
    let text = text_or_empty(row.text_data);
    let rpc = row.event_class == Some(RPC_COMPLETED_CLASS);
    &&& e.event_name@ == (if rpc { "rpc_completed"@ } else { "sql_batch_completed"@ })
    &&& e.start_time@ == text_or_empty(row.start_time)
    &&& p.event_sequence == int_or_zero(row.event_sequence)
    &&& e.elapsed_time == millis_from_micros(int_or_zero(row.duration_us))
    &&& e.cpu_time == narrow(int_or_zero(row.cpu_ms) as int)
    &&& e.physical_reads == 0
    &&& e.logical_reads == counter(int_or_zero(row.reads))
    &&& e.writes == counter(int_or_zero(row.writes))
    &&& e.row_count == counter(int_or_zero(row.row_count))
    &&& e.sql_text@ == text
    &&& e.current_statement@ == (if rpc { text } else { Seq::empty() })
    &&& e.database_name@ == text_or_empty(row.database_name)
    &&& e.login_name@ == text_or_empty(row.login_name)
    &&& e.host_name@ == text_or_empty(row.host_name)
    &&& e.program_name@ == text_or_empty(row.program_name)
    &&& e.session_id == (match row.session_id {
        Some(s) => s,
        None => 0i32,
    })
    &&& e.id@ == Seq::<char>::empty()
    &&& e.captured_at@ == Seq::<char>::empty()
    &&& e.event_status@ == Seq::<char>::empty()
}

pub(crate) fn take_text(o: Option<String>) -> (r: String)
    ensures
        r@ == text_or_empty(o),
{
    match o {
        Some(s) => s,
        None => String::new(),
    }
}

pub(crate) fn take_int(o: Option<i64>) -> (r: i64)
    ensures
        r == int_or_zero(o),
{
    match o {
        Some(x) => x,
        None => 0,
    }
}

pub(crate) fn to_counter(x: i64) -> (r: i64)
    ensures
        r == counter(x),
{
    if x < 0 {
        0
    } else {
        x
    }
}

pub(crate) fn narrow_i64(x: i64) -> (r: i32)
    ensures
        r == narrow(x as int),
{
    if x <= 0 {
        0
    } else if x > i32::MAX as i64 {
        i32::MAX
    } else {
        x as i32
    }
}

/// Milliseconds from microseconds, never wrapping.
pub fn millis_from(us: i64) -> (r: i32)
    ensures
        r == millis_from_micros(us),
{
    if us <= 0 {
        0
    } else {
        narrow_i64(us / 1000)
    }
}

/// Maps one trace row to the unified event; `None` for event classes other
/// than completed RPCs and batches.
pub fn normalize_trace_row(row: TraceRow) -> (r: Option<PolledEvent>)
    ensures
        r is Some <==> is_known_class(row.event_class),
        r is Some ==> normalised_from(row, r->0),
{
    let rpc = match row.event_class {
        Some(c) => {
            if c != RPC_COMPLETED_CLASS && c != BATCH_COMPLETED_CLASS {
                return None;
            }
            c == RPC_COMPLETED_CLASS
        },
        None => {
            return None;
        },
    };
    let event_name = if rpc {
        String::from_str("rpc_completed")
    } else {
        String::from_str("sql_batch_completed")
    };
    let text = take_text(row.text_data);
    let (sql_text, current_statement) = if rpc {
        (text.clone(), text)
    } else {
        (text, String::new())
    };
    let event = QueryEvent {
        id: String::new(),
        session_id: match row.session_id {
            Some(s) => s,
            None => 0,
        },
        start_time: take_text(row.start_time),
        event_name,
        database_name: take_text(row.database_name),
        cpu_time: narrow_i64(take_int(row.cpu_ms)),
        elapsed_time: millis_from(take_int(row.duration_us)),
        physical_reads: 0,
        writes: to_counter(take_int(row.writes)),
        logical_reads: to_counter(take_int(row.reads)),
        row_count: to_counter(take_int(row.row_count)),
        sql_text,
        current_statement,
        login_name: take_text(row.login_name),
        host_name: take_text(row.host_name),
        program_name: take_text(row.program_name),
        captured_at: String::new(),
        event_status: String::new(),
    };
    Some(PolledEvent { event, event_sequence: take_int(row.event_sequence) })
}

/// The rows of a poll that carry a known event class, in order.
pub open spec fn known_rows(rows: Seq<TraceRow>) -> Seq<TraceRow>
    decreases rows.len(),
{
    if rows.len() == 0 {
        Seq::empty()
    } else if is_known_class(rows.last().event_class) {
        known_rows(rows.drop_last()).push(rows.last())
    } else {
        known_rows(rows.drop_last())
    }
}

/// Normalises a poll's rows in order, dropping those of other event classes.
pub fn normalize_trace_rows(rows: Vec<TraceRow>) -> (r: Vec<PolledEvent>)
    ensures
        r@.len() == known_rows(rows@).len(),
        forall|i: int| 0 <= i < r@.len() ==> normalised_from(#[trigger] known_rows(rows@)[i], r@[i]),
{
    let ghost all = rows@;
    let mut r: Vec<PolledEvent> = Vec::new();
    for row in it: rows
        invariant
            it.seq() == all,
            r@.len() == known_rows(all.take(it.index() as int)).len(),
            forall|i: int|
                0 <= i < r@.len() ==> normalised_from(
                    #[trigger] known_rows(all.take(it.index() as int))[i],
                    r@[i],
                ),
    {
        let ghost k = it.index() as int;
        proof {
            assert(all.take(k + 1).drop_last() =~= all.take(k));
            assert(all.take(k + 1).last() == row);
        }
        match normalize_trace_row(row) {
            Some(p) => {
                r.push(p);
                proof {
                    assert(known_rows(all.take(k + 1)) =~= known_rows(all.take(k)).push(row));
                }
            },
            None => {
                proof {
                    assert(known_rows(all.take(k + 1)) =~= known_rows(all.take(k)));
                }
            },
        }
    }
    proof {
        assert(all.take(all.len() as int) =~= all);
    }
    r
}

/// The first row that names a trace and a non-empty file, if any.
pub open spec fn is_valid_meta(row: TraceMetaRow) -> bool {
    &&& row.trace_id is Some
    &&& row.trace_id->0 > 0
    &&& row.trace_file is Some
    &&& row.trace_file->0@.len() > 0
}

/// Reads the identity of the newly armed trace from the rows the arming
/// script returned: the first row with a positive id and a non-empty file.
pub fn trace_from_rows(rows: Vec<TraceMetaRow>) -> (r: Result<ActiveTrace, String>)
    ensures
        match r {
            Ok(t) => exists|i: int|
                0 <= i < rows@.len() && #[trigger] is_valid_meta(rows@[i]) && (forall|j: int|
                    0 <= j < i ==> !is_valid_meta(#[trigger] rows@[j])) && t.trace_id
                    == rows@[i].trace_id->0 && t.trace_file@ == rows@[i].trace_file->0@,
            Err(e) => (forall|i: int| 0 <= i < rows@.len() ==> !is_valid_meta(#[trigger] rows@[i]))
                && e@ == "SQL Trace creation returned invalid trace metadata"@,
        },
{
    let mut i: usize = 0;
    while i < rows.len()
        invariant
            i <= rows@.len(),
            forall|j: int| 0 <= j < i ==> !is_valid_meta(#[trigger] rows@[j]),
        decreases rows@.len() - i,
    {
        let row = &rows[i];
        match (&row.trace_id, &row.trace_file) {
            (Some(id), Some(file)) => {
                if *id > 0 && !file.as_str().is_empty() {
                    proof {
                        assert(is_valid_meta(rows@[i as int]));
                    }
                    return Ok(ActiveTrace { trace_id: *id, trace_file: file.clone() });
                }
            },
            _ => {},
        }
        i = i + 1;
    }
    Err(String::from_str("SQL Trace creation returned invalid trace metadata"))
}

/// What the lower-cased text of a poll error must hold for the error to be
/// the transient one of a trace file roll-over.
pub open spec fn is_transient_lowered(s: Seq<char>) -> bool {
    has_infix(s, "code: 19049"@) || (has_infix(s, "there are no more files"@) && has_infix(
        s,
        "fn_trace_gettable"@,
    ))
}

/// Lower-case form of a text, as std's `to_lowercase` gives it.
pub uninterp spec fn lower_of(s: Seq<char>) -> Seq<char>;

/// Relies on `str::to_lowercase`: its result depends on the characters alone.
#[verifier::external_body]
fn lowercase(s: &str) -> (r: String)
    ensures
        r@ == lower_of(s@),
{
    s.to_lowercase()
}

/// Whether an already lower-cased poll error marks a trace file roll-over.
pub fn matches_transient_lowered(lower: &str) -> (r: bool)
    ensures
        r == is_transient_lowered(lower@),
{
    let s = chars_of(lower);
    let code = chars_of("code: 19049");
    let no_files = chars_of("there are no more files");
    let gettable = chars_of("fn_trace_gettable");
    contains_text(&s, &code) || (contains_text(&s, &no_files) && contains_text(&s, &gettable))
}

/// Whether a poll error is the transient one raised while the server rolls
/// the trace file over; such an error skips a tick and nothing more.
pub fn is_transient_trace_file_error(message: &str) -> (r: bool)
    ensures
        r == is_transient_lowered(lower_of(message@)),
{
    let lower = lowercase(message);
    matches_transient_lowered(lower.as_str())
}

/// Normalisation is deterministic: the same row, normalised twice, gives
/// events that differ at most in identity and capture time, with the same
/// event ordinal.
pub proof fn law_trace_normalisation_is_deterministic(row: TraceRow, p: PolledEvent, q: PolledEvent)
    requires
        normalised_from(row, p),
        normalised_from(row, q),
    ensures
        same_content(p.event, q.event),
        p.event_sequence == q.event_sequence,
{
}

} // verus!
