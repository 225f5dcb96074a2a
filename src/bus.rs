//! The streaming bus: its on/off lifecycle, the loop ownership that keeps a
//! single sampling loop alive, and what one tick of that loop publishes.
use vstd::prelude::*;
use crate::frame::{create_simple_telemetry_frame, enriched, RawSample, TelemetryFrame};

verus! {

/// The shortest sampling period the bus accepts, in milliseconds.
pub const MIN_PERIOD_MS: u64 = 50;

/// The period a requested period is raised to: never below the minimum.
pub open spec fn effective_period_of(period_ms: u64) -> u64 {
    if period_ms < MIN_PERIOD_MS { MIN_PERIOD_MS } else { period_ms }
}

/// The generation that follows `g`.
pub open spec fn next_generation(g: u64) -> u64 {
    if g == u64::MAX { 0 } else { (g + 1) as u64 }
}

/// Clamps a requested sampling period to the minimum.
pub fn effective_period(period_ms: u64) -> (r: u64)
    ensures
        r == effective_period_of(period_ms),
        r >= MIN_PERIOD_MS,
        period_ms >= MIN_PERIOD_MS ==> r == period_ms,
{
    if period_ms < MIN_PERIOD_MS {
        MIN_PERIOD_MS
    } else {
        period_ms
    }
}

/// What a started sampling loop holds: which start it came from and its period.
#[derive(Clone, Copy, Debug, PartialEq, Eq, Structural)]
pub struct LoopTicket {
    pub generation: u64,
    pub period_ms: u64,
}

/// The bus as contracts see it.
pub struct BusView {
    pub active: bool,
    pub generation: u64,
    pub has_sender: bool,
}

/// Streaming state: whether the bus is on, the fan-out handle it holds while
/// on, and the generation of the loop that owns the current run.
pub struct TelemetryBus<H> {
    active: bool,
    generation: u64,
    sender: Option<H>,
}

impl<H> View for TelemetryBus<H> {
    type V = BusView;

    closed spec fn view(&self) -> BusView {
        BusView { active: self.active, generation: self.generation, has_sender: self.sender.is_some() }
    }
}

/// A loop holding ticket `t` keeps sampling under bus state `b`.
pub open spec fn may_continue(b: BusView, t: LoopTicket) -> bool {
    b.active && b.generation == t.generation
}

/// The bus is well formed: it holds a fan-out handle exactly while it is on.
pub open spec fn bus_wf(b: BusView) -> bool {
    b.active == b.has_sender
}

/// What `start` does: from an inactive bus it starts a new loop generation
/// with the clamped period; on an active bus it changes nothing.
pub open spec fn start_outcome(pre: BusView, period_ms: u64, post: BusView, r: Option<LoopTicket>) -> bool {
    if pre.active {
        r.is_none() && post == pre
    } else {
        &&& post.active
        &&& post.has_sender
        &&& post.generation == next_generation(pre.generation)
        &&& r == Some(LoopTicket { generation: post.generation, period_ms: effective_period_of(period_ms) })
    }
}

/// What `stop` does: the bus is off, its handle dropped, its generation kept.
pub open spec fn stop_outcome(pre: BusView, post: BusView) -> bool {
    !post.active && !post.has_sender && post.generation == pre.generation
}

impl<H> TelemetryBus<H> {
    /// An inactive bus.
    pub fn new() -> (r: Self)
        ensures
            !r@.active,
            !r@.has_sender,
            r@.generation == 0,
            bus_wf(r@),
    {
        TelemetryBus { active: false, generation: 0, sender: None }
    }

    /// Turns the bus on with `sender` as its fan-out handle. Returns the
    /// ticket of the loop to spawn, or `None` when the bus is already on, in
    /// which case nothing changes and no loop is to be spawned.
    pub fn start(&mut self, period_ms: u64, sender: H) -> (r: Option<LoopTicket>)
        requires
            bus_wf(old(self)@),
        ensures
            start_outcome(old(self)@, period_ms, final(self)@, r),
            bus_wf(final(self)@),
    {
        if self.active {
            return None;
        }
        let generation: u64 = if self.generation == u64::MAX { 0 } else { self.generation + 1 };
        self.active = true;
        self.generation = generation;
        self.sender = Some(sender);
        Some(LoopTicket { generation, period_ms: effective_period(period_ms) })
    }

    /// Turns the bus off and drops its fan-out handle. A running loop sees
    /// this at its next check and ends.
    pub fn stop(&mut self)
        ensures
            stop_outcome(old(self)@, final(self)@),
            bus_wf(final(self)@),
    {
        self.active = false;
        self.sender = None;
    }

    /// Whether the bus is on.
    pub fn is_active(&self) -> (r: bool)
        ensures
            r == self@.active,
    {
        self.active
    }

    /// Whether the loop holding `ticket` should run another tick.
    pub fn should_continue(&self, ticket: &LoopTicket) -> (r: bool)
        ensures
            r == may_continue(self@, *ticket),
    {
        self.active && self.generation == ticket.generation
    }

    /// The fan-out handle, held while the bus is on.
    pub fn sender(&self) -> (r: Option<&H>)
        ensures
            r.is_some() == self@.has_sender,
    {
        match &self.sender {
            Some(s) => Some(s),
            None => None,
        }
    }
}

/// Positions of the readings that succeeded, in increasing order.
pub open spec fn present_indices(readings: Seq<Option<RawSample>>) -> Seq<int>
    decreases readings.len(),
{
    if readings.len() == 0 {
        Seq::empty()
    } else {
        let prev = present_indices(readings.drop_last());
        if readings.last().is_some() {
            prev.push(readings.len() - 1)
        } else {
            prev
        }
    }
}

proof fn lemma_present_indices(readings: Seq<Option<RawSample>>)
    ensures
        forall|k: int| 0 <= k < present_indices(readings).len() ==>
            0 <= #[trigger] present_indices(readings)[k] < readings.len()
            && readings[present_indices(readings)[k]].is_some(),
        forall|k: int, l: int| 0 <= k < l < present_indices(readings).len() ==>
            present_indices(readings)[k] < present_indices(readings)[l],
        forall|j: int| 0 <= j < readings.len() && (#[trigger] readings[j]).is_some() ==>
            present_indices(readings).contains(j),
    decreases readings.len(),
{
    if readings.len() > 0 {
        let prev = readings.drop_last();
        lemma_present_indices(prev);
        assert forall|j: int| 0 <= j < readings.len() && (#[trigger] readings[j]).is_some() implies
            present_indices(readings).contains(j) by {
            if j < readings.len() - 1 {
                assert(prev[j] == readings[j]);
                let k = choose|k: int| 0 <= k < present_indices(prev).len() && present_indices(prev)[k] == j;
                assert(present_indices(readings)[k] == j);
            } else {
                let p = present_indices(readings);
                assert(p[p.len() - 1] == j);
            }
        }
    }
}

/// The frames one tick publishes: one per reading that succeeded, in device
/// order; a failed reading skips its device for this tick.
pub fn collect_tick(readings: &Vec<Option<RawSample>>) -> (r: Vec<TelemetryFrame>)
    requires
        readings@.len() <= u32::MAX,
    ensures
        r@.len() == present_indices(readings@).len(),
        forall|k: int| 0 <= k < r@.len() ==> {
            let i = #[trigger] present_indices(readings@)[k];
            &&& 0 <= i < readings@.len()
            &&& readings@[i] matches Some(raw) && enriched(r@[k], raw, i as u32)
        },
        forall|k: int, l: int| 0 <= k < l < r@.len() ==> r@[k].device_index < r@[l].device_index,
        forall|j: int| 0 <= j < readings@.len() && (#[trigger] readings@[j]).is_some() ==>
            present_indices(readings@).contains(j),
{
    let mut out: Vec<TelemetryFrame> = Vec::new();
    let mut i: usize = 0;
    while i < readings.len()
        invariant
            i <= readings@.len() <= u32::MAX,
            out@.len() == present_indices(readings@.subrange(0, i as int)).len(),
            forall|k: int| 0 <= k < out@.len() ==> {
                let j = #[trigger] present_indices(readings@.subrange(0, i as int))[k];
                &&& 0 <= j < i
                &&& readings@[j] matches Some(raw) && enriched(out@[k], raw, j as u32)
            },
        decreases readings@.len() - i,
    {
        let ghost pre = readings@.subrange(0, i as int);
        let ghost next = readings@.subrange(0, i + 1);
        proof {
            assert(next.drop_last() =~= pre);
            lemma_present_indices(pre);
        }
        match &readings[i] {
            Some(raw) => {
                let frame = create_simple_telemetry_frame(raw, i as u32);
                out.push(frame);
            },
            None => {},
        }
        proof {
            assert forall|k: int| 0 <= k < out@.len() implies {
                let j = #[trigger] present_indices(next)[k];
                &&& 0 <= j < i + 1
                &&& readings@[j] matches Some(raw) && enriched(out@[k], raw, j as u32)
            } by {
                if k < present_indices(pre).len() {
                    assert(present_indices(next)[k] == present_indices(pre)[k]);
                }
            }
        }
        i = i + 1;
    }
    proof {
        assert(readings@.subrange(0, readings@.len() as int) =~= readings@);
        lemma_present_indices(readings@);
        let pi = present_indices(readings@);
        assert forall|k: int, l: int| 0 <= k < l < out@.len() implies
            out@[k].device_index < out@[l].device_index by {
            let ik = pi[k];
            let il = pi[l];
            assert(ik < il);
            assert(out@[k].device_index == ik as u32);
            assert(out@[l].device_index == il as u32);
        }
    }
    out
}

/// Starting an active bus again spawns no second loop, and a single stop
/// then halts every loop: no ticket may continue afterwards.
pub proof fn restart_spawns_no_second_loop(
    b0: BusView,
    b1: BusView,
    b2: BusView,
    b3: BusView,
    p1: u64,
    p2: u64,
    t1: Option<LoopTicket>,
    t2: Option<LoopTicket>,
)
    requires
        start_outcome(b0, p1, b1, t1),
        start_outcome(b1, p2, b2, t2),
        stop_outcome(b2, b3),
    ensures
        b1.active,
        t2.is_none(),
        b2 == b1,
        b0.active ==> b2 == b0,
        !b0.active ==> forall|t: LoopTicket|
            may_continue(b2, t) <==> t.generation == t1.unwrap().generation,
        forall|t: LoopTicket| !may_continue(b3, t),
{
}

/// Starting with any period and stopping right away leaves the bus off, with
/// no loop allowed another tick.
pub proof fn start_then_stop_is_inactive(
    b0: BusView,
    b1: BusView,
    b2: BusView,
    p: u64,
    t: Option<LoopTicket>,
)
    requires
        start_outcome(b0, p, b1, t),
        stop_outcome(b1, b2),
    ensures
        !b2.active,
        !b2.has_sender,
        forall|u: LoopTicket| !may_continue(b2, u),
{
}

/// A loop started by a fresh start runs at the requested period raised to
/// the minimum; any shorter request behaves exactly as the minimum does.
pub proof fn started_period_is_clamped(
    b0: BusView,
    b1: BusView,
    b2: BusView,
    p: u64,
    t1: Option<LoopTicket>,
    t2: Option<LoopTicket>,
)
    requires
        !b0.active,
        start_outcome(b0, p, b1, t1),
        start_outcome(b0, MIN_PERIOD_MS, b2, t2),
    ensures
        t1 is Some,
        t1.unwrap().period_ms == (if p < MIN_PERIOD_MS { MIN_PERIOD_MS } else { p }),
        p <= MIN_PERIOD_MS ==> b1 == b2 && t1 == t2,
{
}

} // verus!
