//! The visit store: appends page-view events and computes the aggregate
//! (total count and most recent timestamp) over all of them.

use crate::errors::StoreError;
use vstd::prelude::*;

verus! {

/// One recorded page view: the requested path and the clock reading,
/// milliseconds since the epoch, UTC. Timestamps need not arrive in order.
pub struct VisitEvent {
    pub path: String,
    pub occurred_at: i64,
}

/// The derived summary over all recorded events. The timestamp is absent
/// exactly when no event exists yet.
#[derive(Clone, Copy, Debug, PartialEq, Eq, Structural)]
pub struct VisitAggregate {
    pub total_count: u64,
    pub latest_timestamp: Option<i64>,
}

/// Builds the event the request pipeline records for one inbound request.
pub fn make_visit_event(path: &str, now_millis: i64) -> (r: VisitEvent)
    ensures
        r.path@ == path@,
        r.occurred_at == now_millis,
{
    VisitEvent { path: path.to_owned(), occurred_at: now_millis }
}

/// The greatest timestamp among a non-empty run of events.
pub open spec fn max_ts(s: Seq<VisitEvent>) -> i64
    recommends
        s.len() > 0,
    decreases s.len(),
{
    if s.len() <= 1 {
        s[0].occurred_at
    } else if s.last().occurred_at > max_ts(s.drop_last()) {
        s.last().occurred_at
    } else {
        max_ts(s.drop_last())
    }
}

/// The timestamps of a run of events, in order.
pub open spec fn timestamps(s: Seq<VisitEvent>) -> Seq<i64> {
    s.map_values(|e: VisitEvent| e.occurred_at)
}

/// The greatest timestamp is one of the recorded timestamps, and no recorded
/// timestamp exceeds it.
pub proof fn lemma_max_ts_bounds(s: Seq<VisitEvent>)
    requires
        s.len() > 0,
    ensures
        exists|i: int| 0 <= i < s.len() && #[trigger] s[i].occurred_at == max_ts(s),
        forall|i: int| 0 <= i < s.len() ==> #[trigger] s[i].occurred_at <= max_ts(s),
    decreases s.len(),
{
    if s.len() == 1 {
        assert(s[0].occurred_at == max_ts(s));
    }
    if s.len() > 1 {
        lemma_max_ts_bounds(s.drop_last());
        assert forall|i: int| 0 <= i < s.len() implies #[trigger] s[i].occurred_at <= max_ts(
            s,
        ) by {
            if i < s.len() - 1 {
                assert(s.drop_last()[i] == s[i]);
            }
        }
        if s.last().occurred_at > max_ts(s.drop_last()) {
            assert(s[s.len() - 1].occurred_at == max_ts(s));
        } else {
            let w = choose|i: int|
                0 <= i < s.drop_last().len() && #[trigger] s.drop_last()[i].occurred_at == max_ts(
                    s.drop_last(),
                );
            assert(s[w].occurred_at == max_ts(s));
        }
    }
}

/// The aggregate does not depend on the order in which events were recorded:
/// two runs of events with the same timestamps as a multiset have the same
/// length and the same greatest timestamp.
pub proof fn lemma_aggregate_order_independent(s1: Seq<VisitEvent>, s2: Seq<VisitEvent>)
    requires
        timestamps(s1).to_multiset() == timestamps(s2).to_multiset(),
    ensures
        s1.len() == s2.len(),
        s1.len() > 0 ==> max_ts(s1) == max_ts(s2),
{
    broadcast use vstd::seq_lib::group_to_multiset_ensures;

    assert(timestamps(s1).len() == s1.len());
    assert(timestamps(s2).len() == s2.len());
    assert(timestamps(s1).len() == timestamps(s1).to_multiset().len());
    assert(timestamps(s2).len() == timestamps(s2).to_multiset().len());
    assert(timestamps(s1).len() == timestamps(s2).len());
    if s1.len() > 0 {
        lemma_max_ts_bounds(s1);
        lemma_max_ts_bounds(s2);
        lemma_max_le(s1, s2);
        lemma_max_le(s2, s1);
    }
}

proof fn lemma_max_le(s1: Seq<VisitEvent>, s2: Seq<VisitEvent>)
    requires
        s1.len() > 0,
        s2.len() > 0,
        timestamps(s1).to_multiset() == timestamps(s2).to_multiset(),
    ensures
        max_ts(s1) <= max_ts(s2),
{
    broadcast use vstd::seq_lib::group_to_multiset_ensures;

    lemma_max_ts_bounds(s1);
    lemma_max_ts_bounds(s2);
    let w = choose|i: int| 0 <= i < s1.len() && #[trigger] s1[i].occurred_at == max_ts(s1);
    assert(timestamps(s1)[w] == max_ts(s1));
    assert(timestamps(s1).contains(max_ts(s1)));
    assert(timestamps(s1).to_multiset().count(max_ts(s1)) > 0);
    assert(timestamps(s2).to_multiset().count(max_ts(s1)) > 0);
    assert(timestamps(s2).contains(max_ts(s1)));
    let j = choose|j: int| 0 <= j < timestamps(s2).len() && timestamps(s2)[j] == max_ts(s1);
    assert(s2[j].occurred_at == max_ts(s1));
}

/// The store itself: the events recorded so far, in call order. Its view is
/// that run of events.
pub struct VisitStore {
    events: Vec<VisitEvent>,
}

impl View for VisitStore {
    type V = Seq<VisitEvent>;

    closed spec fn view(&self) -> Seq<VisitEvent> {
        self.events@
    }
}

impl VisitStore {
    /// An empty store: no events recorded yet.
    pub fn new() -> (r: VisitStore)
        ensures
            r@ == Seq::<VisitEvent>::empty(),
    {
        VisitStore { events: Vec::new() }
    }

    /// Appends one event; never drops it, and never fails.
    pub fn record(&mut self, e: VisitEvent) -> (r: Result<(), StoreError>)
        ensures
            r is Ok,
            final(self)@ == old(self)@.push(e),
    {
        self.events.push(e);
        Ok(())
    }

    /// The aggregate over everything recorded: the exact count, and the
    /// greatest timestamp — absent exactly on the empty store, which is a
    /// well-defined case and never an error.
    pub fn aggregate(&self) -> (r: Result<VisitAggregate, StoreError>)
        ensures
            r is Ok,
            r->Ok_0.total_count as nat == self@.len(),
            self@.len() == 0 ==> r->Ok_0.latest_timestamp is None,
            self@.len() > 0 ==> r->Ok_0.latest_timestamp == Some(max_ts(self@)),
    {
        let mut latest: Option<i64> = None;
        let mut i: usize = 0;
        while i < self.events.len()
            invariant
                i <= self.events@.len(),
                self.events@ == self@,
                i == 0 ==> latest is None,
                i > 0 ==> latest == Some(max_ts(self@.take(i as int))),
            decreases self.events@.len() - i,
        {
            let t = self.events[i].occurred_at;
            match latest {
                None => {
                    latest = Some(t);
                },
                Some(m) => {
                    if t > m {
                        latest = Some(t);
                    }
                },
            }
            proof {
                assert(self@.take(i + 1).drop_last() =~= self@.take(i as int));
                assert(self@.take(i + 1).last() == self@[i as int]);
                if i == 0 {
                    assert(max_ts(self@.take(1)) == self@[0].occurred_at);
                }
            }
            i += 1;
        }
        proof {
            assert(self@.take(self@.len() as int) =~= self@);
        }
        Ok(VisitAggregate { total_count: self.events.len() as u64, latest_timestamp: latest })
    }
}

} // verus!
