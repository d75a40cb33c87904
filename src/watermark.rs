//! At-most-once delivery across overlapping polls: a watermark of the last
//! start time and event ordinal seen, plus fingerprints of rows that carry
//! no ordinal at that start time.
use vstd::prelude::*;
use crate::model::{PolledEvent, QueryEvent};
use crate::text::{
    chars_of, lemma_text_le_transitive, lemma_text_lt_irreflexive, lemma_text_lt_total,
    lemma_text_lt_transitive, text_le, text_less, text_lt,
};

verus! {

/// Start time below every timestamp the server emits, in the same format.
pub const MIN_TIMESTAMP: &'static str = "1900-01-01T00:00:00.000";

/// The fields that identify a row without an event ordinal.
pub type FingerprintView = (Seq<char>, Seq<char>, Seq<char>, i32, i32, i32, i64, i64, i64, i64);

pub open spec fn fingerprint(e: QueryEvent) -> FingerprintView {
    (
        e.event_name@,
        e.database_name@,
        e.sql_text@,
        e.session_id,
        e.elapsed_time,
        e.cpu_time,
        e.logical_reads,
        e.physical_reads,
        e.writes,
        e.row_count,
    )
}

/// The stored form of a fingerprint.
#[derive(Debug, Clone, PartialEq, Eq)]
pub struct Fingerprint {
    pub event_name: String,
    pub database_name: String,
    pub sql_text: String,
    pub session_id: i32,
    pub elapsed_time: i32,
    pub cpu_time: i32,
    pub logical_reads: i64,
    pub physical_reads: i64,
    pub writes: i64,
    pub row_count: i64,
}

impl View for Fingerprint {
    type V = FingerprintView;

    open spec fn view(&self) -> FingerprintView {
        (
            self.event_name@,
            self.database_name@,
            self.sql_text@,
            self.session_id,
            self.elapsed_time,
            self.cpu_time,
            self.logical_reads,
            self.physical_reads,
            self.writes,
            self.row_count,
        )
    }
}

impl Fingerprint {
    pub fn of(e: &QueryEvent) -> (r: Fingerprint)
        ensures
            r@ == fingerprint(*e),
    {
        Fingerprint {
            event_name: e.event_name.clone(),
            database_name: e.database_name.clone(),
            sql_text: e.sql_text.clone(),
            session_id: e.session_id,
            elapsed_time: e.elapsed_time,
            cpu_time: e.cpu_time,
            logical_reads: e.logical_reads,
            physical_reads: e.physical_reads,
            writes: e.writes,
            row_count: e.row_count,
        }
    }

    pub fn matches(&self, e: &QueryEvent) -> (r: bool)
        ensures
            r == (self@ == fingerprint(*e)),
    {
        self.session_id == e.session_id && self.elapsed_time == e.elapsed_time && self.cpu_time
            == e.cpu_time && self.logical_reads == e.logical_reads && self.physical_reads
            == e.physical_reads && self.writes == e.writes && self.row_count == e.row_count
            && self.event_name == e.event_name && self.database_name == e.database_name
            && self.sql_text == e.sql_text
    }
}

/// The watermark as a mathematical value.
pub struct WatermarkView {
    pub last_timestamp: Seq<char>,
    pub last_event_sequence: i64,
    pub fallback: Seq<FingerprintView>,
}

/// Client-side cursor of one capture.
#[derive(Debug, Clone, PartialEq, Eq)]
pub struct Watermark {
    pub last_timestamp: String,
    pub last_event_sequence: i64,
    pub fallback: Vec<Fingerprint>,
}

impl View for Watermark {
    type V = WatermarkView;

    open spec fn view(&self) -> WatermarkView {
        WatermarkView {
            last_timestamp: self.last_timestamp@,
            last_event_sequence: self.last_event_sequence,
            fallback: self.fallback@.map_values(|f: Fingerprint| f@),
        }
    }
}

/// The watermark a capture starts from.
pub open spec fn initial_watermark() -> WatermarkView {
    WatermarkView {
        last_timestamp: MIN_TIMESTAMP@,
        last_event_sequence: -1i64,
        fallback: Seq::empty(),
    }
}

/// The watermark once a row at `ts` is taken in: a later start time resets
/// the ordinal and the fingerprints.
pub open spec fn advanced_to(w: WatermarkView, ts: Seq<char>) -> WatermarkView {
    if text_lt(w.last_timestamp, ts) {
        WatermarkView { last_timestamp: ts, last_event_sequence: -1i64, fallback: Seq::empty() }
    } else {
        w
    }
}

/// One row against the watermark: the watermark after it, and whether the
/// row is new and so published.
pub open spec fn accept_row(w: WatermarkView, p: PolledEvent) -> (WatermarkView, bool) {
    let ts = p.event.start_time@;
    if text_lt(ts, w.last_timestamp) {
        (w, false)
    } else {
        let w1 = advanced_to(w, ts);
        if p.event_sequence > 0 {
            if p.event_sequence <= w1.last_event_sequence {
                (w1, false)
            } else {
                (WatermarkView { last_event_sequence: p.event_sequence, ..w1 }, true)
            }
        } else if w1.fallback.contains(fingerprint(p.event)) {
            (w1, false)
        } else {
            (
                WatermarkView {
                    last_event_sequence: if w1.last_event_sequence < 0 {
                        0
                    } else {
                        w1.last_event_sequence
                    },
                    fallback: w1.fallback.push(fingerprint(p.event)),
                    ..w1
                },
                true,
            )
        }
    }
}

/// A poll's rows in order against the watermark: the watermark after them,
/// and the rows that are published, in order.
pub open spec fn accept_all(w: WatermarkView, rows: Seq<PolledEvent>) -> (
    WatermarkView,
    Seq<PolledEvent>,
)
    decreases rows.len(),
{
    if rows.len() == 0 {
        (w, Seq::empty())
    } else {
        let (w1, out) = accept_all(w, rows.drop_last());
        let (w2, keep) = accept_row(w1, rows.last());
        (w2, if keep { out.push(rows.last()) } else { out })
    }
}

impl Watermark {
    /// The watermark of a new capture.
    pub fn new() -> (r: Watermark)
        ensures
            r@ == initial_watermark(),
    {
        let r = Watermark {
            last_timestamp: String::from_str(MIN_TIMESTAMP),
            last_event_sequence: -1i64,
            fallback: Vec::new(),
        };
        assert(r@.fallback =~= Seq::<FingerprintView>::empty());
        r
    }

    fn has_fingerprint(&self, e: &QueryEvent) -> (r: bool)
        ensures
            r == self@.fallback.contains(fingerprint(*e)),
    {
        let mut i: usize = 0;
        while i < self.fallback.len()
            invariant
                i <= self.fallback@.len(),
                forall|j: int| 0 <= j < i ==> self.fallback@[j]@ != fingerprint(*e),
            decreases self.fallback@.len() - i,
        {
            if self.fallback[i].matches(e) {
                assert(self@.fallback[i as int] == fingerprint(*e));
                return true;
            }
            i = i + 1;
        }
        proof {
            if self@.fallback.contains(fingerprint(*e)) {
                let j = choose|j: int| 0 <= j < self@.fallback.len() && self@.fallback[j] == fingerprint(*e);
                assert(self.fallback@[j]@ == fingerprint(*e));
            }
        }
        false
    }

    /// Takes one row in; returns whether it is to be published.
    pub fn accept_one(&mut self, p: &PolledEvent) -> (r: bool)
        ensures
            (final(self)@, r) == accept_row(old(self)@, *p),
    {
        let ts = chars_of(p.event.start_time.as_str());
        let last = chars_of(self.last_timestamp.as_str());
        if text_less(&ts, &last) {
            return false;
        }
        if text_less(&last, &ts) {
            self.last_timestamp = p.event.start_time.clone();
            self.last_event_sequence = -1;
            self.fallback = Vec::new();
            assert(self@.fallback =~= Seq::<FingerprintView>::empty());
        }
        let seq = p.event_sequence;
        if seq > 0 {
            if seq <= self.last_event_sequence {
                return false;
            }
            self.last_event_sequence = seq;
            return true;
        }
        if self.has_fingerprint(&p.event) {
            return false;
        }
        let ghost before = self@;
        self.fallback.push(Fingerprint::of(&p.event));
        assert(self@.fallback =~= before.fallback.push(fingerprint(p.event)));
        if self.last_event_sequence < 0 {
            self.last_event_sequence = 0;
        }
        true
    }

    /// Takes a poll's rows in, in server order; returns those to publish,
    /// in the same order.
    pub fn accept(&mut self, rows: Vec<PolledEvent>) -> (r: Vec<PolledEvent>)
        ensures
            (final(self)@, r@) == accept_all(old(self)@, rows@),
    {
        let ghost w0 = self@;
        let ghost all = rows@;
        let mut out: Vec<PolledEvent> = Vec::new();
        for p in it: rows
            invariant
                it.seq() == all,
                (self@, out@) == accept_all(w0, all.take(it.index() as int)),
        {
            let ghost k = it.index() as int;
            proof {
                assert(all.take(k + 1).drop_last() =~= all.take(k));
                assert(all.take(k + 1).last() == p);
            }
            if self.accept_one(&p) {
                out.push(p);
            }
        }
        proof {
            assert(all.take(all.len() as int) =~= all);
        }
        out
    }
}

/// Start time of a polled row.
pub open spec fn start_of(p: PolledEvent) -> Seq<char> {
    p.event.start_time@
}

proof fn lemma_accept_row_facts(w: WatermarkView, p: PolledEvent)
    ensures
        ({
            let (w2, keep) = accept_row(w, p);
            &&& text_le(w.last_timestamp, w2.last_timestamp)
            &&& w.last_timestamp == w2.last_timestamp ==> w.last_event_sequence
                <= w2.last_event_sequence
            &&& keep ==> start_of(p) == w2.last_timestamp
            &&& keep && p.event_sequence > 0 ==> p.event_sequence == w2.last_event_sequence
            &&& keep && p.event_sequence > 0 && w.last_timestamp == w2.last_timestamp
                ==> p.event_sequence > w.last_event_sequence
        }),
{
    let ts = start_of(p);
    if !text_lt(ts, w.last_timestamp) {
        lemma_text_lt_total(ts, w.last_timestamp);
        if text_lt(w.last_timestamp, ts) {
            lemma_text_lt_irreflexive(ts);
        }
    }
}

/// Whether a published row lies at or below the watermark in the order of
/// (start time, event ordinal).
pub open spec fn covered_by(p: PolledEvent, w: WatermarkView) -> bool {
    text_lt(start_of(p), w.last_timestamp) || (start_of(p) == w.last_timestamp
        && p.event_sequence <= w.last_event_sequence)
}

proof fn lemma_accept_all_facts(w: WatermarkView, rows: Seq<PolledEvent>)
    ensures
        ({
            let (w2, out) = accept_all(w, rows);
            &&& text_le(w.last_timestamp, w2.last_timestamp)
            &&& forall|i: int|
                0 <= i < out.len() ==> text_le(w.last_timestamp, start_of(#[trigger] out[i]))
                    && text_le(start_of(out[i]), w2.last_timestamp)
            &&& forall|i: int|
                0 <= i < out.len() && (#[trigger] out[i]).event_sequence > 0 ==> covered_by(
                    out[i],
                    w2,
                )
            &&& forall|i: int, j: int|
                0 <= i < j < out.len() ==> text_le(start_of(#[trigger] out[i]), start_of(#[trigger] out[j]))
            &&& forall|i: int, j: int|
                0 <= i < j < out.len() && (#[trigger] out[i]).event_sequence > 0
                    && (#[trigger] out[j]).event_sequence > 0 ==> !(start_of(out[i]) == start_of(out[j])
                    && out[i].event_sequence == out[j].event_sequence)
        }),
    decreases rows.len(),
{
    if rows.len() > 0 {
        lemma_accept_all_facts(w, rows.drop_last());
        let (w1, out1) = accept_all(w, rows.drop_last());
        let p = rows.last();
        let (w2, keep) = accept_row(w1, p);
        let out = accept_all(w, rows).1;
        lemma_accept_row_facts(w1, p);
        lemma_text_le_transitive(w.last_timestamp, w1.last_timestamp, w2.last_timestamp);
        assert forall|i: int| 0 <= i < out1.len() implies text_le(start_of(#[trigger] out1[i]), w2.last_timestamp) && (out1[i].event_sequence > 0 ==> covered_by(out1[i], w2)) by {
            lemma_text_le_transitive(start_of(out1[i]), w1.last_timestamp, w2.last_timestamp);
            if text_lt(start_of(out1[i]), w1.last_timestamp) && text_lt(w1.last_timestamp, w2.last_timestamp) {
                lemma_text_lt_transitive(start_of(out1[i]), w1.last_timestamp, w2.last_timestamp);
            }
        }
        if keep {
            assert(out == out1.push(p));
            assert forall|i: int| 0 <= i < out1.len() implies !(start_of(out1[i]) == start_of(p) && (#[trigger] out1[i]).event_sequence > 0 && p.event_sequence > 0 && out1[i].event_sequence == p.event_sequence) by {
                if text_lt(start_of(out1[i]), w1.last_timestamp) {
                    if w1.last_timestamp != w2.last_timestamp {
                        lemma_text_lt_transitive(start_of(out1[i]), w1.last_timestamp, w2.last_timestamp);
                    }
                    lemma_text_lt_irreflexive(start_of(p));
                }
            }
            assert forall|i: int| 0 <= i < out1.len() implies text_le(w.last_timestamp, start_of(#[trigger] out1[i])) by {}
            lemma_text_le_transitive(w.last_timestamp, w1.last_timestamp, start_of(p));
        } else {
            assert(out == out1);
        }
    }
}

/// Taking in two polls one after the other is the same as taking in their
/// rows in one go: the same watermark results, and the same rows are
/// published, in the same order.
pub proof fn law_polls_compose(w: WatermarkView, a: Seq<PolledEvent>, b: Seq<PolledEvent>)
    ensures
        accept_all(w, a + b).0 == accept_all(accept_all(w, a).0, b).0,
        accept_all(w, a + b).1 == accept_all(w, a).1 + accept_all(accept_all(w, a).0, b).1,
    decreases b.len(),
{
    if b.len() == 0 {
        assert(a + b =~= a);
        assert(accept_all(w, a).1 + Seq::<PolledEvent>::empty() =~= accept_all(w, a).1);
    } else {
        law_polls_compose(w, a, b.drop_last());
        assert((a + b).drop_last() =~= a + b.drop_last());
        assert((a + b).last() == b.last());
        let wa = accept_all(w, a);
        let wb = accept_all(wa.0, b.drop_last());
        assert((wa.1 + wb.1).push(b.last()) =~= wa.1 + wb.1.push(b.last()));
    }
}

/// Published events never go back in start time: within what one poll
/// publishes, each start time sorts at or after the previous one and at or
/// after the watermark the poll began from.
pub proof fn law_start_times_non_decreasing(w: WatermarkView, rows: Seq<PolledEvent>)
    ensures
        forall|i: int, j: int|
            0 <= i < j < accept_all(w, rows).1.len() ==> text_le(
                start_of(#[trigger] accept_all(w, rows).1[i]),
                start_of(#[trigger] accept_all(w, rows).1[j]),
            ),
        forall|i: int|
            0 <= i < accept_all(w, rows).1.len() ==> text_le(
                w.last_timestamp,
                start_of(#[trigger] accept_all(w, rows).1[i]),
            ),
{
    lemma_accept_all_facts(w, rows);
}

/// Across two successive polls of a capture, published start times never go
/// back either: everything the second publishes sorts at or after everything
/// the first published.
pub proof fn law_start_times_non_decreasing_across_polls(
    w: WatermarkView,
    a: Seq<PolledEvent>,
    b: Seq<PolledEvent>,
)
    ensures
        forall|i: int, j: int|
            0 <= i < accept_all(w, a).1.len() && 0 <= j < accept_all(accept_all(w, a).0, b).1.len()
                ==> text_le(
                start_of(#[trigger] accept_all(w, a).1[i]),
                start_of(#[trigger] accept_all(accept_all(w, a).0, b).1[j]),
            ),
{
    law_polls_compose(w, a, b);
    lemma_accept_all_facts(w, a + b);
    let out_a = accept_all(w, a).1;
    let out_b = accept_all(accept_all(w, a).0, b).1;
    let all = out_a + out_b;
    assert forall|i: int, j: int|
        0 <= i < out_a.len() && 0 <= j < out_b.len() implies text_le(
        start_of(#[trigger] out_a[i]),
        start_of(#[trigger] out_b[j]),
    ) by {
        assert(all[i] == out_a[i]);
        assert(all[out_a.len() + j] == out_b[j]);
    }
}

/// Rows that carry an event ordinal are published at most once: no two
/// published events share session, start time and ordinal.
pub proof fn law_sequenced_rows_published_once(w: WatermarkView, rows: Seq<PolledEvent>)
    ensures
        forall|i: int, j: int|
            0 <= i < j < accept_all(w, rows).1.len() && (#[trigger] accept_all(w, rows).1[i]).event_sequence > 0
                && (#[trigger] accept_all(w, rows).1[j]).event_sequence > 0 ==> !({
                let (x, y) = (accept_all(w, rows).1[i], accept_all(w, rows).1[j]);
                &&& x.event.session_id == y.event.session_id
                &&& start_of(x) == start_of(y)
                &&& x.event_sequence == y.event_sequence
            }),
{
    lemma_accept_all_facts(w, rows);
}

/// The same holds across two successive polls of a capture: nothing the
/// second publishes repeats the key of a sequenced event the first published.
pub proof fn law_sequenced_rows_published_once_across_polls(
    w: WatermarkView,
    a: Seq<PolledEvent>,
    b: Seq<PolledEvent>,
)
    ensures
        forall|i: int, j: int|
            0 <= i < accept_all(w, a).1.len() && 0 <= j < accept_all(accept_all(w, a).0, b).1.len()
                && (#[trigger] accept_all(w, a).1[i]).event_sequence > 0
                && (#[trigger] accept_all(accept_all(w, a).0, b).1[j]).event_sequence > 0 ==> !({
                let (x, y) = (accept_all(w, a).1[i], accept_all(accept_all(w, a).0, b).1[j]);
                &&& x.event.session_id == y.event.session_id
                &&& start_of(x) == start_of(y)
                &&& x.event_sequence == y.event_sequence
            }),
{
    law_polls_compose(w, a, b);
    lemma_accept_all_facts(w, a + b);
    let out_a = accept_all(w, a).1;
    let out_b = accept_all(accept_all(w, a).0, b).1;
    let all = out_a + out_b;
    assert forall|i: int, j: int|
        0 <= i < out_a.len() && 0 <= j < out_b.len() && (#[trigger] out_a[i]).event_sequence > 0
            && (#[trigger] out_b[j]).event_sequence > 0 implies !(start_of(out_a[i]) == start_of(out_b[j])
        && out_a[i].event_sequence == out_b[j].event_sequence) by {
        assert(all[i] == out_a[i]);
        assert(all[out_a.len() + j] == out_b[j]);
    }
}

} // verus!
