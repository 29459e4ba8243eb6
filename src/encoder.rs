use vstd::prelude::*;
use crate::stats::saturating_inc;

verus! {

/// Deadtime after a counted pulse during which edges are not observed.
pub const DEBOUNCE_US: u64 = 500;

/// Pulse intervals shorter than this are classified as forward motion.
pub const FORWARD_INTERVAL_US: u64 = 50_000;

/// Pulses per shaft revolution of the fitted encoder.
pub const DEFAULT_PULSES_PER_REVOLUTION: u32 = 9;

/// Direction inferred from the spacing of pulses; a timing heuristic, not
/// quadrature decoding.
#[derive(Clone, Copy, Debug, PartialEq, Eq, Structural)]
pub enum Direction {
    Forward,
    Reverse,
    Unknown,
}

/// Encoder state read together by the display and the console.
#[derive(Clone, Copy, Debug, PartialEq, Eq, Structural)]
pub struct EncoderData {
    pub count: u32,
    pub direction: Direction,
    /// Time of the last counted pulse, in microseconds.
    pub last_timestamp: u64,
    /// Last estimated speed, in whole revolutions per minute.
    pub rpm: u64,
}

/// One edge reported on the encoder input: the level read after it and when.
#[derive(Clone, Copy, Debug, PartialEq, Eq, Structural)]
pub struct Edge {
    pub is_high: bool,
    pub at_us: u64,
}

/// The edge detector's own memory: the last level it observed and the time
/// from which it observes edges again.
#[derive(Clone, Copy, Debug, PartialEq, Eq, Structural)]
pub struct PulseDetector {
    pub last_high: bool,
    pub rearm_at_us: u64,
}

pub open spec fn direction_for(interval_us: u64) -> Direction {
    if interval_us < FORWARD_INTERVAL_US {
        Direction::Forward
    } else {
        Direction::Reverse
    }
}

/// The edge is observed (outside the deadtime) and is a high-to-low transition.
pub open spec fn qualifies(det: PulseDetector, e: Edge) -> bool {
    e.at_us >= det.rearm_at_us && det.last_high && !e.is_high
}

pub open spec fn saturating_add_u64(a: u64, b: u64) -> u64 {
    if a + b <= u64::MAX {
        (a + b) as u64
    } else {
        u64::MAX
    }
}

/// Encoder state after a counted pulse at time `t`.
pub open spec fn count_pulse(data: EncoderData, t: u64) -> EncoderData {
    EncoderData {
        count: saturating_inc(data.count),
        direction: if t > data.last_timestamp {
            direction_for((t - data.last_timestamp) as u64)
        } else {
            data.direction
        },
        last_timestamp: t,
        rpm: data.rpm,
    }
}

/// Detector and encoder state after one reported edge.
pub open spec fn edge_step(det: PulseDetector, data: EncoderData, e: Edge) -> (
    PulseDetector,
    EncoderData,
) {
    if e.at_us < det.rearm_at_us {
        (det, data)
    } else if qualifies(det, e) {
        (
            PulseDetector {
                last_high: e.is_high,
                rearm_at_us: saturating_add_u64(e.at_us, DEBOUNCE_US),
            },
            count_pulse(data, e.at_us),
        )
    } else {
        (PulseDetector { last_high: e.is_high, ..det }, data)
    }
}

/// Detector and encoder state after a sequence of reported edges.
pub open spec fn run_edges(det: PulseDetector, data: EncoderData, edges: Seq<Edge>) -> (
    PulseDetector,
    EncoderData,
)
    decreases edges.len(),
{
    if edges.len() == 0 {
        (det, data)
    } else {
        let prev = run_edges(det, data, edges.drop_last());
        edge_step(prev.0, prev.1, edges.last())
    }
}

/// Edges of a signal that falls, rises, falls, ... with every edge at least
/// one deadtime after the one before it, the first one observable.
pub open spec fn spaced_square_wave(det: PulseDetector, edges: Seq<Edge>) -> bool {
    &&& forall|i: int| 0 <= i < edges.len() ==> edges[i].is_high == (i % 2 == 1)
    &&& edges.len() > 0 ==> edges[0].at_us >= det.rearm_at_us
    &&& forall|i: int|
        0 < i < edges.len() ==> #[trigger] edges[i].at_us >= edges[i - 1].at_us + DEBOUNCE_US
}

proof fn lemma_square_wave_prefix(det: PulseDetector, data: EncoderData, edges: Seq<Edge>, k: int)
    requires
        det.last_high,
        spaced_square_wave(det, edges),
        0 <= k <= edges.len(),
        data.count + edges.len() <= u32::MAX,
    ensures
        ({
            let r = run_edges(det, data, edges.subrange(0, k));
            &&& r.1.count == data.count + (k + 1) / 2
            &&& r.0.last_high == (k % 2 == 0)
            &&& k == 0 ==> r.0 == det
            &&& k > 0 ==> r.0.rearm_at_us <= edges[k - 1].at_us + DEBOUNCE_US
        }),
    decreases k,
{
    if k == 0 {
        assert(edges.subrange(0, 0).len() == 0);
    } else {
        lemma_square_wave_prefix(det, data, edges, k - 1);
        let pre = edges.subrange(0, k);
        assert(pre.drop_last() =~= edges.subrange(0, k - 1));
        assert(pre.last() == edges[k - 1]);
        let prev = run_edges(det, data, edges.subrange(0, k - 1));
        assert(edges[k - 1].at_us >= prev.0.rearm_at_us);
    }
}

/// A falling, rising, falling, ... input whose edges are spaced more than a
/// deadtime apart raises the pulse count by exactly the number of falling
/// edges: `n` for `2 * n` edges.
pub proof fn lemma_spaced_pulses_counted(
    det: PulseDetector,
    data: EncoderData,
    edges: Seq<Edge>,
    n: nat,
)
    requires
        det.last_high,
        spaced_square_wave(det, edges),
        edges.len() == 2 * n,
        data.count + 2 * n <= u32::MAX,
    ensures
        run_edges(det, data, edges).1.count == data.count + n,
{
    lemma_square_wave_prefix(det, data, edges, edges.len() as int);
    assert(edges.subrange(0, edges.len() as int) =~= edges);
}

/// Once a pulse has been counted, an edge that comes inside the deadtime
/// changes neither the count nor any other state.
pub proof fn lemma_edge_in_deadtime_ignored(
    det: PulseDetector,
    data: EncoderData,
    pulse: Edge,
    e: Edge,
)
    requires
        qualifies(det, pulse),
        pulse.at_us + DEBOUNCE_US <= u64::MAX,
        e.at_us < pulse.at_us + DEBOUNCE_US,
    ensures
        ({
            let s = edge_step(det, data, pulse);
            &&& s.1.count == saturating_inc(data.count)
            &&& edge_step(s.0, s.1, e) == s
        }),
{
}

impl EncoderData {
    /// Zero count, unknown direction, zero speed.
    pub fn new() -> (r: EncoderData)
        ensures
            r == (EncoderData { count: 0, direction: Direction::Unknown, last_timestamp: 0, rpm: 0 }),
    {
        EncoderData { count: 0, direction: Direction::Unknown, last_timestamp: 0, rpm: 0 }
    }
}

impl PulseDetector {
    /// A detector that has seen the input high and observes edges at once.
    pub fn new() -> (r: PulseDetector)
        ensures
            r == (PulseDetector { last_high: true, rearm_at_us: 0 }),
    {
        PulseDetector { last_high: true, rearm_at_us: 0 }
    }

    /// Handles one reported edge. An edge inside the deadtime changes
    /// nothing; a high-to-low transition counts a pulse, classifies the
    /// direction from the interval since the previous pulse and starts the
    /// deadtime. Returns whether a pulse was counted.
    pub fn on_edge(&mut self, data: &mut EncoderData, e: Edge) -> (counted: bool)
        ensures
            (*final(self), *final(data)) == edge_step(*old(self), *old(data), e),
            counted == qualifies(*old(self), e),
            final(data).count >= old(data).count,
    {
        if e.at_us < self.rearm_at_us {
            return false;
        }
        let counted = self.last_high && !e.is_high;
        if counted {
            if data.count < u32::MAX {
                data.count = data.count + 1;
            }
            if e.at_us > data.last_timestamp {
                let interval = e.at_us - data.last_timestamp;
                data.direction = if interval < FORWARD_INTERVAL_US {
                    Direction::Forward
                } else {
                    Direction::Reverse
                };
            }
            data.last_timestamp = e.at_us;
            self.rearm_at_us = if e.at_us <= u64::MAX - DEBOUNCE_US {
                e.at_us + DEBOUNCE_US
            } else {
                u64::MAX
            };
        }
        self.last_high = e.is_high;
        counted
    }
}

/// The pulse count.
pub fn get_encoder_count(data: &EncoderData) -> (r: u32)
    ensures
        r == data.count,
{
    data.count
}

/// Sets the pulse count back to zero; the rest of the state stays.
pub fn reset_encoder_count(data: &mut EncoderData)
    ensures
        *final(data) == (EncoderData { count: 0, ..*old(data) }),
{
    data.count = 0;
}

/// A copy of the whole encoder state.
pub fn get_encoder_data(data: &EncoderData) -> (r: EncoderData)
    ensures
        r == *data,
{
    *data
}

} // verus!
