//! The pacer: the state of the frame-producing loop. Starting from a start
//! time it walks the target timestamps `start + interval`, `start +
//! 2*interval`, ... — always exactly one interval per step, whether or not
//! rendering ran late, so the cadence never drifts and never skips. The host
//! thread renders a frame for the current target, sleeps until that target,
//! offers the frame to the handoff channel, and advances; when the offer
//! reports the consumer permanently gone, the pacer stops and the loop must
//! do no further work.
use crate::frame::GeneratedFrame;
use crate::handoff::{try_send_frame, SendOutcome};
use vstd::arithmetic::mul::{
    lemma_mul_basics, lemma_mul_is_distributive_add, lemma_mul_strict_inequality,
};
use vstd::prelude::*;

verus! {

/// The `k`-th target timestamp of a pacer started at `start`: the pacer's
/// very first frame is due one interval after the start.
pub open spec fn spec_target(start: u64, interval: u64, k: nat) -> int {
    start + interval * (k + 1)
}

/// Law: the cadence is monotonic with no drift — consecutive target
/// timestamps differ by exactly the interval, however long any iteration
/// took.
pub proof fn lemma_monotonic_cadence(start: u64, interval: u64, k: nat)
    ensures
        spec_target(start, interval, k + 1) - spec_target(start, interval, k) == interval,
{
    lemma_mul_is_distributive_add(interval as int, (k + 1) as int, 1);
}

/// Law: the target timestamps are strictly increasing, so the produced
/// frame stream carries strictly increasing timestamps.
pub proof fn lemma_targets_strictly_increasing(start: u64, interval: u64, i: nat, j: nat)
    requires
        interval > 0,
        i < j,
    ensures
        spec_target(start, interval, i) < spec_target(start, interval, j),
{
    lemma_mul_strict_inequality((i + 1) as int, (j + 1) as int, interval as int);
    assert((i + 1) * (interval as int) == (interval as int) * (i + 1)) by (nonlinear_arith);
    assert((j + 1) * (interval as int) == (interval as int) * (j + 1)) by (nonlinear_arith);
}

/// The pacing state. `ticks` counts completed iterations; `next_target` is
/// always the timestamp of the frame to produce next.
pub struct Pacer {
    pub interval_ms: u64,
    pub next_target: u64,
    pub running: bool,
    pub start: Ghost<u64>,
    pub ticks: Ghost<nat>,
}

impl Pacer {
    /// The concrete cursor agrees with the mathematical cadence.
    pub open spec fn wf(self) -> bool {
        &&& self.interval_ms > 0
        &&& self.next_target as int == spec_target(self.start@, self.interval_ms, self.ticks@)
    }

    /// A pacer about to produce its first frame, due one interval after
    /// `start_ms`.
    pub fn new(start_ms: u64, interval_ms: u64) -> (r: Pacer)
        requires
            interval_ms > 0,
            start_ms + interval_ms <= u64::MAX,
        ensures
            r.wf(),
            r.running,
            r.interval_ms == interval_ms,
            r.start@ == start_ms,
            r.ticks@ == 0,
            r.next_target == start_ms + interval_ms,
    {
        proof {
            lemma_mul_basics(interval_ms as int);
        }
        Pacer {
            interval_ms,
            next_target: start_ms + interval_ms,
            running: true,
            start: Ghost(start_ms),
            ticks: Ghost(0),
        }
    }

    /// The timestamp the next frame must carry.
    pub fn next_timestamp(&self) -> (ts: u64)
        ensures
            ts == self.next_target,
    {
        self.next_target
    }

    /// Whether the loop still has work to do.
    pub fn is_running(&self) -> (r: bool)
        ensures
            r == self.running,
    {
        self.running
    }

    /// How long to sleep before the next target is due: the remaining time,
    /// or zero when rendering overran the interval — the pacer proceeds
    /// immediately and never skips a target to catch up.
    pub fn sleep_millis(&self, now_ms: u64) -> (d: u64)
        ensures
            d == if now_ms < self.next_target {
                self.next_target - now_ms
            } else {
                0
            },
    {
        if now_ms < self.next_target {
            self.next_target - now_ms
        } else {
            0
        }
    }

    /// One completed iteration: the cursor moves forward by exactly one
    /// interval.
    fn advance(&mut self)
        requires
            old(self).wf(),
            old(self).running,
            old(self).next_target + old(self).interval_ms <= u64::MAX,
        ensures
            final (self).wf(),
            final (self).running,
            final (self).interval_ms == old(self).interval_ms,
            final (self).start@ == old(self).start@,
            final (self).ticks@ == old(self).ticks@ + 1,
            final (self).next_target == old(self).next_target + old(self).interval_ms,
    {
        proof {
            lemma_mul_is_distributive_add(
                old(self).interval_ms as int,
                (old(self).ticks@ + 1) as int,
                1,
            );
        }
        self.next_target = self.next_target + self.interval_ms;
        self.ticks = Ghost(self.ticks@ + 1);
    }

    /// The consumer is permanently gone: stop, and touch nothing else.
    fn stop(&mut self)
        requires
            old(self).wf(),
        ensures
            final (self).wf(),
            !final (self).running,
            final (self).interval_ms == old(self).interval_ms,
            final (self).start@ == old(self).start@,
            final (self).ticks@ == old(self).ticks@,
            final (self).next_target == old(self).next_target,
    {
        self.running = false;
    }
}

/// One iteration's handoff and bookkeeping: offer the rendered frame to the
/// channel without blocking. If the receiving side is gone the pacer stops —
/// clean shutdown, not an error — and `stopped` is returned; otherwise the
/// frame was either taken by a waiting receiver or dropped, and the cadence
/// advances by exactly one interval either way.
pub fn pace_step(
    pacer: &mut Pacer,
    tx: &crossbeam_channel::Sender<GeneratedFrame>,
    frame: GeneratedFrame,
) -> (stopped: bool)
    requires
        old(pacer).wf(),
        old(pacer).running,
        frame.timestamp == old(pacer).next_target,
        old(pacer).next_target + old(pacer).interval_ms <= u64::MAX,
    ensures
        final (pacer).wf(),
        final (pacer).interval_ms == old(pacer).interval_ms,
        final (pacer).start@ == old(pacer).start@,
        stopped == !final (pacer).running,
        stopped ==> final (pacer).next_target == old(pacer).next_target && final (pacer).ticks@
            == old(pacer).ticks@,
        !stopped ==> final (pacer).next_target == old(pacer).next_target + old(pacer).interval_ms
            && final (pacer).ticks@ == old(pacer).ticks@ + 1,
{
    match try_send_frame(tx, frame) {
        SendOutcome::Sent => {
            pacer.advance();
            false
        },
        SendOutcome::Dropped(_) => {
            pacer.advance();
            false
        },
        SendOutcome::Disconnected(_) => {
            pacer.stop();
            true
        },
    }
}

} // verus!
