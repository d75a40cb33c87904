//! The live-requests backend samples requests while they run. A request is
//! known by its session and start time; it is reported `running` at every
//! sample that shows it, under one identity, and `completed` once, at the
//! first sample that no longer shows it.
use vstd::prelude::*;
use crate::model::QueryEvent;
use crate::poll::fresh_id;

verus! {

/// Period of the live-requests poll, in milliseconds.
pub const LIVE_POLL_INTERVAL_MS: u64 = 1000;

/// A request's key: session and start time.
pub open spec fn key_of(e: QueryEvent) -> (i32, Seq<char>) {
    (e.session_id, e.start_time@)
}

pub open spec fn has_key(s: Seq<QueryEvent>, k: (i32, Seq<char>)) -> bool {
    exists|j: int| 0 <= j < s.len() && key_of(#[trigger] s[j]) == k
}

/// `e` is `src` reported at `at` under `status`, with identity `id`.
pub open spec fn reported_as(e: QueryEvent, src: QueryEvent, id: String, at: Seq<char>, status: Seq<char>) -> bool {
    &&& e == (QueryEvent { id, captured_at: e.captured_at, event_status: e.event_status, ..src })
    &&& e.captured_at@ == at
    &&& e.event_status@ == status
}

/// `e` reports the sampled request `row` as `running` at `at`, under the
/// identity that `seen` gives its key, or under a new one.
pub open spec fn running_report(e: QueryEvent, row: QueryEvent, seen: Seq<QueryEvent>, at: Seq<char>) -> bool {
    &&& reported_as(e, row, e.id, at, "running"@)
    &&& has_key(seen, key_of(row)) ==> exists|j: int|
        0 <= j < seen.len() && key_of(seen[j]) == key_of(row) && e.id == #[trigger] seen[j].id
    &&& !has_key(seen, key_of(row)) ==> e.id@.len() == 36
}

/// The requests reported `running` at the last sample, with their identities.
#[derive(Debug, Clone, PartialEq, Eq)]
pub struct LiveTracker {
    pub seen: Vec<QueryEvent>,
}

impl LiveTracker {
    /// A tracker that has seen nothing, as at the start of a capture.
    pub fn new() -> (r: LiveTracker)
        ensures
            r.seen@.len() == 0,
    {
        LiveTracker { seen: Vec::new() }
    }

    /// Forgets every request, as StartCapture and Disconnect do.
    pub fn clear(&mut self)
        ensures
            final(self).seen@.len() == 0,
    {
        self.seen = Vec::new();
    }

    fn find_key(&self, e: &QueryEvent) -> (r: Option<usize>)
        ensures
            match r {
                Some(j) => j < self.seen@.len() && key_of(self.seen@[j as int]) == key_of(*e),
                None => !has_key(self.seen@, key_of(*e)),
            },
    {
        let mut j: usize = 0;
        while j < self.seen.len()
            invariant
                j <= self.seen@.len(),
                forall|k: int| 0 <= k < j ==> key_of(#[trigger] self.seen@[k]) != key_of(*e),
            decreases self.seen@.len() - j,
        {
            let s = &self.seen[j];
            if s.session_id == e.session_id && s.start_time == e.start_time {
                return Some(j);
            }
            j = j + 1;
        }
        None
    }

    fn running_event(&self, row: QueryEvent, captured_at: &String) -> (e: QueryEvent)
        ensures
            running_report(e, row, self.seen@, captured_at@),
    {
        let ghost row0 = row;
        let found = self.find_key(&row);
        let id = match found {
            Some(j) => self.seen[j].id.clone(),
            None => fresh_id(),
        };
        let mut e = row;
        e.id = id;
        e.captured_at = captured_at.clone();
        e.event_status = String::from_str("running");
        proof {
            match found {
                Some(j) => {
                    assert(key_of(self.seen@[j as int]) == key_of(row0));
                    assert(e.id == self.seen@[j as int].id);
                },
                None => {},
            }
        }
        e
    }

    /// One sample of the running requests, at capture time `captured_at`.
    /// Returns first each sampled request as `running`, in order, under the
    /// identity it already had or a new one; then, once each, the requests
    /// of the previous sample that are gone, as `completed`.
    pub fn observe(&mut self, rows: Vec<QueryEvent>, captured_at: &String) -> (r: Vec<QueryEvent>)
        ensures
            r@.len() >= rows@.len(),
            forall|i: int|
                0 <= i < rows@.len() ==> running_report(#[trigger] r@[i], rows@[i], old(self).seen@, captured_at@),
            forall|i: int|
                rows@.len() <= i < r@.len() ==> {
                    &&& !has_key(rows@, key_of(#[trigger] r@[i]))
                    &&& exists|j: int|
                        0 <= j < old(self).seen@.len() && reported_as(
                            r@[i],
                            #[trigger] old(self).seen@[j],
                            old(self).seen@[j].id,
                            captured_at@,
                            "completed"@,
                        )
                },
            forall|j: int|
                0 <= j < old(self).seen@.len() && !has_key(rows@, key_of(#[trigger] old(self).seen@[j]))
                    ==> exists|i: int|
                    rows@.len() <= i < r@.len() && key_of(#[trigger] r@[i]) == key_of(old(self).seen@[j]),
            final(self).seen@ == r@.take(rows@.len() as int),
            forall|i: int|
                rows@.len() <= i < r@.len() ==> has_key(old(self).seen@, key_of(#[trigger] r@[i]))
                    && !has_key(final(self).seen@, key_of(r@[i])),
    {
        let ghost all = rows@;
        let mut running: Vec<QueryEvent> = Vec::new();
        for row in it: rows
            invariant
                it.seq() == all,
                running@.len() == it.index(),
                forall|i: int|
                    0 <= i < running@.len() ==> running_report(#[trigger] running@[i], all[i], self.seen@, captured_at@),
        {
            let ghost k = it.index() as int;
            assert(all[k] == row);
            let e = self.running_event(row, captured_at);
            running.push(e);
        }
        let mut r: Vec<QueryEvent> = Vec::new();
        let mut k: usize = 0;
        while k < running.len()
            invariant
                k <= running@.len(),
                r@ == running@.take(k as int),
            decreases running@.len() - k,
        {
            r.push(running[k].copy_of());
            assert(r@ =~= running@.take(k + 1));
            k = k + 1;
        }
        assert(r@ =~= running@);
        let mut j: usize = 0;
        while j < self.seen.len()
            invariant
                j <= self.seen@.len(),
                r@.len() >= all.len(),
                r@.take(all.len() as int) == running@,
                running@.len() == all.len(),
                forall|i: int|
                    0 <= i < running@.len() ==> running_report(#[trigger] running@[i], all[i], self.seen@, captured_at@),
                forall|i: int| 0 <= i < all.len() ==> key_of(#[trigger] running@[i]) == key_of(all[i]),
                forall|i: int|
                    all.len() <= i < r@.len() ==> {
                        &&& !has_key(all, key_of(#[trigger] r@[i]))
                        &&& exists|m: int|
                            0 <= m < self.seen@.len() && reported_as(
                                r@[i],
                                #[trigger] self.seen@[m],
                                self.seen@[m].id,
                                captured_at@,
                                "completed"@,
                            )
                    },
                forall|m: int|
                    0 <= m < j && !has_key(all, key_of(#[trigger] self.seen@[m])) ==> exists|i: int|
                        all.len() <= i < r@.len() && key_of(#[trigger] r@[i]) == key_of(self.seen@[m]),
            decreases self.seen@.len() - j,
        {
            let mut present = false;
            let mut i: usize = 0;
            while i < running.len()
                invariant
                    i <= running@.len(),
                    running@.len() == all.len(),
                    forall|t: int| 0 <= t < all.len() ==> key_of(#[trigger] running@[t]) == key_of(all[t]),
                    j < self.seen@.len(),
                    present == exists|t: int| 0 <= t < i && key_of(#[trigger] all[t]) == key_of(self.seen@[j as int]),
                decreases running@.len() - i,
            {
                if running[i].session_id == self.seen[j].session_id && running[i].start_time == self.seen[j].start_time {
                    assert(key_of(all[i as int]) == key_of(running@[i as int]));
                    present = true;
                }
                i = i + 1;
            }
            proof {
                if present {
                    let t = choose|t: int| 0 <= t < all.len() && key_of(#[trigger] all[t]) == key_of(self.seen@[j as int]);
                    assert(has_key(all, key_of(self.seen@[j as int])));
                } else {
                    assert forall|t: int| 0 <= t < all.len() implies key_of(#[trigger] all[t]) != key_of(self.seen@[j as int]) by {}
                    assert(!has_key(all, key_of(self.seen@[j as int])));
                }
            }
            if !present {
                let mut e = self.seen[j].copy_of();
                e.captured_at = captured_at.clone();
                e.event_status = String::from_str("completed");
                let ghost before = r@;
                r.push(e);
                proof {
                    assert(r@.take(all.len() as int) =~= before.take(all.len() as int));
                    assert(reported_as(r@[r@.len() - 1], self.seen@[j as int], self.seen@[j as int].id, captured_at@, "completed"@));
                    assert(key_of(r@[r@.len() - 1]) == key_of(self.seen@[j as int]));
                    assert forall|m: int| 0 <= m < j + 1 && !has_key(all, key_of(#[trigger] self.seen@[m])) implies exists|i: int|
                        all.len() <= i < r@.len() && key_of(#[trigger] r@[i]) == key_of(self.seen@[m]) by {
                        if m < j {
                            let i0 = choose|i: int| all.len() <= i < before.len() && key_of(#[trigger] before[i]) == key_of(self.seen@[m]);
                            assert(r@[i0] == before[i0]);
                        } else {
                            assert(key_of(r@[r@.len() - 1]) == key_of(self.seen@[m]));
                        }
                    }
                }
            }
            j = j + 1;
        }
        proof {
            assert forall|i: int| 0 <= i < all.len() implies running_report(#[trigger] r@[i], all[i], self.seen@, captured_at@) by {
                assert(r@.take(all.len() as int)[i] == r@[i]);
            }
            assert forall|i: int| all.len() <= i < r@.len() implies has_key(self.seen@, key_of(#[trigger] r@[i]))
                && !has_key(running@, key_of(r@[i])) by {
                let m = choose|m: int| 0 <= m < self.seen@.len() && reported_as(r@[i], #[trigger] self.seen@[m], self.seen@[m].id, captured_at@, "completed"@);
                assert(key_of(self.seen@[m]) == key_of(r@[i]));
                if has_key(running@, key_of(r@[i])) {
                    let t = choose|t: int| 0 <= t < running@.len() && key_of(#[trigger] running@[t]) == key_of(r@[i]);
                    assert(key_of(all[t]) == key_of(r@[i]));
                    assert(has_key(all, key_of(r@[i])));
                }
            }
        }
        self.seen = running;
        r
    }
}

} // verus!
