//! A model of the handoff discipline between pacer and server, with the laws
//! it guarantees proved over every possible interleaving.
//!
//! The channel is a rendezvous: it stores nothing. An offer succeeds exactly
//! when the consumer is already waiting; otherwise the frame is dropped on
//! the spot. The model tracks the timestamps ever offered (`produced`), the
//! timestamps the consumer actually received (`delivered`), and whether a
//! receive is blocked right now (`waiting`). The pacer's cadence makes every
//! new offer carry a timestamp above everything offered before (see
//! `pacer::lemma_targets_strictly_increasing`), which is the premise of the
//! `Offer` event here.
use crate::pacer::{lemma_targets_strictly_increasing, spec_target};
use vstd::prelude::*;

verus! {

/// Abstract state of the handoff between the two threads.
pub struct ChannelModel {
    /// Timestamps of every frame the pacer has offered, oldest first.
    pub produced: Seq<u64>,
    /// Timestamps of every frame a consumer has received, oldest first.
    pub delivered: Seq<u64>,
    /// Whether a receiver is blocked in a receive at this instant.
    pub waiting: bool,
}

/// The two things that can happen to the channel.
pub enum ChannelEvent {
    /// The pacer's non-blocking send of the frame due at this timestamp.
    Offer(u64),
    /// The consumer starts to block in a receive.
    Request,
}

/// Every element is smaller than every later one.
pub open spec fn strictly_increasing(s: Seq<u64>) -> bool {
    forall|i: int, j: int| 0 <= i < j < s.len() ==> s[i] < s[j]
}

/// The channel before anything happened.
pub open spec fn init() -> ChannelModel {
    ChannelModel { produced: Seq::empty(), delivered: Seq::empty(), waiting: false }
}

/// When an event can occur: the pacer only offers timestamps above everything
/// it offered before (its cadence is strictly increasing), and a single
/// consumer does not issue a second receive while one is blocked.
pub open spec fn event_allowed(s: ChannelModel, e: ChannelEvent) -> bool {
    match e {
        ChannelEvent::Offer(ts) => forall|i: int|
            0 <= i < s.produced.len() ==> s.produced[i] < ts,
        ChannelEvent::Request => !s.waiting,
    }
}

/// The rendezvous transition. An offer hands the frame to a waiting receiver
/// and unblocks it, or — when nobody is waiting — drops the frame; in either
/// case nothing is buffered.
pub open spec fn step(s: ChannelModel, e: ChannelEvent) -> ChannelModel {
    match e {
        ChannelEvent::Offer(ts) => if s.waiting {
            ChannelModel {
                produced: s.produced.push(ts),
                delivered: s.delivered.push(ts),
                waiting: false,
            }
        } else {
            ChannelModel { produced: s.produced.push(ts), delivered: s.delivered, waiting: false }
        },
        ChannelEvent::Request => ChannelModel {
            produced: s.produced,
            delivered: s.delivered,
            waiting: true,
        },
    }
}

/// The state after a whole sequence of events.
pub open spec fn run(s: ChannelModel, evs: Seq<ChannelEvent>) -> ChannelModel
    decreases evs.len(),
{
    if evs.len() == 0 {
        s
    } else {
        run(step(s, evs[0]), evs.drop_first())
    }
}

/// Every event of the sequence is allowed in the state it meets.
pub open spec fn events_allowed(s: ChannelModel, evs: Seq<ChannelEvent>) -> bool
    decreases evs.len(),
{
    evs.len() == 0 || (event_allowed(s, evs[0]) && events_allowed(step(s, evs[0]), evs.drop_first()))
}

/// What every reachable state satisfies.
pub open spec fn inv(s: ChannelModel) -> bool {
    &&& strictly_increasing(s.produced)
    &&& strictly_increasing(s.delivered)
    &&& forall|i: int| 0 <= i < s.delivered.len() ==> s.produced.contains(#[trigger] s.delivered[i])
}

/// Everything ever delivered sits below a timestamp that exceeds the whole
/// produced sequence.
proof fn lemma_delivered_below(s: ChannelModel, ts: u64)
    requires
        inv(s),
        event_allowed(s, ChannelEvent::Offer(ts)),
    ensures
        forall|i: int| 0 <= i < s.delivered.len() ==> #[trigger] s.delivered[i] < ts,
{
    assert forall|i: int| 0 <= i < s.delivered.len() implies #[trigger] s.delivered[i] < ts by {
        assert(s.produced.contains(s.delivered[i]));
        let k = choose|k: int| 0 <= k < s.produced.len() && s.produced[k] == s.delivered[i];
        assert(s.produced[k] < ts);
    }
}

/// One step keeps the invariant.
pub proof fn lemma_step_preserves_inv(s: ChannelModel, e: ChannelEvent)
    requires
        inv(s),
        event_allowed(s, e),
    ensures
        inv(step(s, e)),
{
    match e {
        ChannelEvent::Request => {},
        ChannelEvent::Offer(ts) => {
            let s2 = step(s, e);
            lemma_delivered_below(s, ts);
            assert(strictly_increasing(s2.produced)) by {
                assert forall|i: int, j: int|
                    0 <= i < j < s2.produced.len() implies s2.produced[i] < s2.produced[j] by {
                    if j < s.produced.len() {
                        assert(s.produced[i] < s.produced[j]);
                    } else {
                        assert(s2.produced[j] == ts);
                        assert(s2.produced[i] == s.produced[i]);
                    }
                }
            }
            assert forall|i: int|
                0 <= i < s2.delivered.len() implies s2.produced.contains(
                #[trigger] s2.delivered[i],
            ) by {
                if i < s.delivered.len() {
                    assert(s.produced.contains(s.delivered[i]));
                    let k = choose|k: int|
                        0 <= k < s.produced.len() && s.produced[k] == s.delivered[i];
                    assert(s2.produced[k] == s.delivered[i]);
                } else {
                    assert(s2.delivered[i] == ts);
                    assert(s2.produced[s.produced.len() as int] == ts);
                }
            }
            if s.waiting {
                assert(strictly_increasing(s2.delivered)) by {
                    assert forall|i: int, j: int|
                        0 <= i < j < s2.delivered.len() implies s2.delivered[i]
                        < s2.delivered[j] by {
                        if j < s.delivered.len() {
                            assert(s.delivered[i] < s.delivered[j]);
                        } else {
                            assert(s2.delivered[j] == ts);
                            assert(s2.delivered[i] == s.delivered[i]);
                        }
                    }
                }
            }
        },
    }
}

/// A whole allowed run keeps the invariant.
pub proof fn lemma_run_preserves_inv(s: ChannelModel, evs: Seq<ChannelEvent>)
    requires
        inv(s),
        events_allowed(s, evs),
    ensures
        inv(run(s, evs)),
    decreases evs.len(),
{
    if evs.len() > 0 {
        lemma_step_preserves_inv(s, evs[0]);
        lemma_run_preserves_inv(step(s, evs[0]), evs.drop_first());
    }
}

/// Law: no reordering and no duplication. After any allowed run from the
/// start, the timestamps the consumer received form a strictly increasing
/// sequence, and every one of them was produced: a (possibly sparse)
/// strictly increasing subsequence of the produced stream.
pub proof fn lemma_no_reordering_no_duplication(evs: Seq<ChannelEvent>)
    requires
        events_allowed(init(), evs),
    ensures
        strictly_increasing(run(init(), evs).delivered),
        forall|i: int|
            0 <= i < run(init(), evs).delivered.len() ==> run(init(), evs).produced.contains(
                #[trigger] run(init(), evs).delivered[i],
            ),
{
    lemma_run_preserves_inv(init(), evs);
}

/// Law: at most one frame is in flight, and a frame offered while the
/// previous request is already served — nobody waiting — is dropped on the
/// spot, never queued: the offer changes nothing but the produced history.
pub proof fn lemma_drop_never_queued(s: ChannelModel, ts: u64)
    requires
        !s.waiting,
    ensures
        step(s, ChannelEvent::Offer(ts)).delivered == s.delivered,
        step(s, ChannelEvent::Offer(ts)).produced == s.produced.push(ts),
        !step(s, ChannelEvent::Offer(ts)).waiting,
{
}

/// A timestamp that was produced but never delivered is never delivered by
/// any later allowed events either.
proof fn lemma_undelivered_stays(s: ChannelModel, ts: u64, evs: Seq<ChannelEvent>)
    requires
        inv(s),
        s.produced.contains(ts),
        !s.delivered.contains(ts),
        events_allowed(s, evs),
    ensures
        !run(s, evs).delivered.contains(ts),
    decreases evs.len(),
{
    if evs.len() > 0 {
        let e = evs[0];
        let s2 = step(s, e);
        lemma_step_preserves_inv(s, e);
        match e {
            ChannelEvent::Request => {
                lemma_undelivered_stays(s2, ts, evs.drop_first());
            },
            ChannelEvent::Offer(ts2) => {
                let k = choose|k: int| 0 <= k < s.produced.len() && s.produced[k] == ts;
                assert(ts < ts2);
                assert(s2.produced[k] == ts);
                assert(s2.produced.contains(ts));
                assert(!s2.delivered.contains(ts)) by {
                    if s2.delivered.contains(ts) {
                        let d = choose|d: int|
                            0 <= d < s2.delivered.len() && s2.delivered[d] == ts;
                        if d < s.delivered.len() {
                            assert(s.delivered.contains(ts));
                        } else {
                            assert(s2.delivered[d] == ts2);
                        }
                    }
                }
                lemma_undelivered_stays(s2, ts, evs.drop_first());
            },
        }
    }
}

/// Law: backpressure by drop is final. A frame offered while nobody waits is
/// invisible to the consumer forever: no later requests or offers ever
/// deliver it.
pub proof fn lemma_dropped_frame_invisible(s: ChannelModel, ts: u64, evs: Seq<ChannelEvent>)
    requires
        inv(s),
        !s.waiting,
        event_allowed(s, ChannelEvent::Offer(ts)),
        events_allowed(step(s, ChannelEvent::Offer(ts)), evs),
    ensures
        !run(step(s, ChannelEvent::Offer(ts)), evs).delivered.contains(ts),
{
    let s2 = step(s, ChannelEvent::Offer(ts));
    lemma_step_preserves_inv(s, ChannelEvent::Offer(ts));
    lemma_delivered_below(s, ts);
    assert(s2.produced[s.produced.len() as int] == ts);
    assert(s2.produced.contains(ts));
    assert(!s2.delivered.contains(ts)) by {
        if s2.delivered.contains(ts) {
            let d = choose|d: int| 0 <= d < s2.delivered.len() && s2.delivered[d] == ts;
            assert(s.delivered[d] < ts);
        }
    }
    lemma_undelivered_stays(s2, ts, evs);
}

/// Law: a waiting consumer receives exactly the frame offered at that
/// instant, which is the newest frame ever produced — stale frames are never
/// buffered, so the delivered frame is the one produced at (or, seen from
/// the request, first after) the moment of delivery.
pub proof fn lemma_delivers_freshest(s: ChannelModel, ts: u64)
    requires
        inv(s),
        s.waiting,
        event_allowed(s, ChannelEvent::Offer(ts)),
    ensures
        step(s, ChannelEvent::Offer(ts)).delivered == s.delivered.push(ts),
        step(s, ChannelEvent::Offer(ts)).produced.last() == ts,
        forall|i: int|
            0 <= i < step(s, ChannelEvent::Offer(ts)).produced.len() - 1 ==> step(
                s,
                ChannelEvent::Offer(ts),
            ).produced[i] < ts,
{
    let s2 = step(s, ChannelEvent::Offer(ts));
    assert(s2.produced.last() == ts);
    assert forall|i: int| 0 <= i < s2.produced.len() - 1 implies s2.produced[i] < ts by {
        assert(s2.produced[i] == s.produced[i]);
    }
}

/// The pacer's cadence justifies the offer premise: when the produced history
/// is the pacer's first targets in order, offering the next target is always
/// allowed — it exceeds everything offered before.
pub proof fn lemma_cadence_offer_allowed(start: u64, interval: u64, s: ChannelModel, t: u64)
    requires
        interval > 0,
        forall|i: int|
            0 <= i < s.produced.len() ==> #[trigger] s.produced[i] == spec_target(
                start,
                interval,
                i as nat,
            ),
        t == spec_target(start, interval, s.produced.len() as nat),
    ensures
        event_allowed(s, ChannelEvent::Offer(t)),
{
    assert forall|i: int| 0 <= i < s.produced.len() implies s.produced[i] < t by {
        lemma_targets_strictly_increasing(start, interval, i as nat, s.produced.len() as nat);
    }
}

} // verus!
