//! One tick of the poll loop: which rows are published, with what identity
//! and capture time, and what a failed poll means for the capture.
use vstd::prelude::*;
use crate::model::{PolledEvent, ProfilerStatus, QueryEvent};
use crate::trace::{is_transient_lowered, is_transient_trace_file_error, lower_of};
use crate::watermark::{accept_all, Watermark};

verus! {

/// Period of the classic trace poll, in milliseconds.
pub const TRACE_POLL_INTERVAL_MS: u64 = 300;

/// Relies on `uuid::Uuid::new_v4` and its `Display`, which writes the
/// hyphenated lower-case form: 36 characters.
#[verifier::external_body]
pub(crate) fn fresh_id() -> (r: String)
    ensures
        r@.len() == 36,
{
    uuid::Uuid::new_v4().to_string()
}

/// Relies on `chrono::Utc::now` and `DateTime::to_rfc3339`: the wall-clock
/// time of the call. Nothing is stated of it, as it depends on the clock.
#[verifier::external_body]
fn now_rfc3339() -> (r: String) {
    chrono::Utc::now().to_rfc3339()
}

/// `e` is `src` with a fresh identity, the capture time `at` and the
/// status `completed`, every other field unchanged.
pub open spec fn stamped_from(e: QueryEvent, src: QueryEvent, at: Seq<char>) -> bool {
    &&& e == (QueryEvent { id: e.id, captured_at: e.captured_at, event_status: e.event_status, ..src })
    &&& e.id@.len() == 36
    &&& e.captured_at@ == at
    &&& e.event_status@ == "completed"@
}

/// Gives each accepted row its identity, the tick's capture time and the
/// `completed` status, keeping their order.
pub fn stamp_events(accepted: Vec<PolledEvent>, captured_at: &String) -> (r: Vec<QueryEvent>)
    ensures
        r@.len() == accepted@.len(),
        forall|i: int|
            0 <= i < r@.len() ==> stamped_from(#[trigger] r@[i], accepted@[i].event, captured_at@),
{
    let ghost all = accepted@;
    let mut r: Vec<QueryEvent> = Vec::new();
    for p in it: accepted
        invariant
            it.seq() == all,
            r@.len() == it.index(),
            forall|i: int| 0 <= i < r@.len() ==> stamped_from(#[trigger] r@[i], all[i].event, captured_at@),
    {
        let mut e = p.event;
        e.id = fresh_id();
        e.captured_at = captured_at.clone();
        e.event_status = String::from_str("completed");
        r.push(e);
    }
    r
}

/// One tick's rows, in server order, through the watermark: returns the
/// events to publish, in order, all with the same capture time.
pub fn publish_tick(watermark: &mut Watermark, rows: Vec<PolledEvent>) -> (r: Vec<QueryEvent>)
    ensures
        final(watermark)@ == accept_all(old(watermark)@, rows@).0,
        r@.len() == accept_all(old(watermark)@, rows@).1.len(),
        forall|i: int|
            0 <= i < r@.len() ==> stamped_from(
                #[trigger] r@[i],
                accept_all(old(watermark)@, rows@).1[i].event,
                r@[0].captured_at@,
            ),
{
    if rows.len() == 0 {
        proof {
            assert(rows@ =~= Seq::<PolledEvent>::empty());
        }
        return Vec::new();
    }
    let now = now_rfc3339();
    let accepted = watermark.accept(rows);
    stamp_events(accepted, &now)
}

/// What a failed poll does to the capture: `None` for the transient error of
/// a trace file roll-over (the tick is skipped and the watermark kept);
/// otherwise the capture ends, and this is the status to publish.
pub fn poll_failure_status(message: String) -> (r: Option<ProfilerStatus>)
    ensures
        r is None <==> is_transient_lowered(lower_of(message@)),
        r is Some ==> r->0 == (ProfilerStatus { connected: true, capturing: false, error: Some(message) }),
{
    if is_transient_trace_file_error(message.as_str()) {
        None
    } else {
        Some(ProfilerStatus { connected: true, capturing: false, error: Some(message) })
    }
}

} // verus!
