//! Detection of overuse from the delay of packets, and of loss.
use super::grouping::{steps_keep_wf, Grouping, LAST_INTER_DEPARTURE_SIZE};
use super::packet::{duration_of, ts2dur, Packet, PacketGroup, PacketGroupView, BURST_TIME};
use super::window::{
    an_arrival_keeps_the_order, arrivals_keep_the_order, bytes_of, eviction_keeps_the_window,
    in_order, lemma_bytes_bound, lemma_lost_bound, lemma_place_is, lost_among, place, recent,
    remember, shortest_round_trip, with_packet, with_packets, PACKETS_RECEIVED_WINDOW,
    ROUND_TRIP_TIME_WINDOW_SIZE,
};
use std::collections::VecDeque;
use vstd::prelude::*;

verus! {

/// The threshold for the delay at the start (12.5 ms).
pub const INITIAL_DEL_VAR_TH: i64 = 12_500_000;

/// How long overuse lasts before it is signalled (10 ms).
pub const OVERUSE_TIME_TH: i64 = 10_000_000;

/// An estimate this far above the threshold leaves the threshold alone (15 ms).
pub const MAX_M_MINUS_DEL_VAR_TH: i64 = 15_000_000;

/// The threshold's lower end (6 ms).
pub const MIN_THRESHOLD: i64 = 6_000_000;

/// The threshold's upper end (600 ms).
pub const MAX_THRESHOLD: i64 = 600_000_000;

/// The most that passes between two updates of the threshold (100 ms).
pub const MAX_TIME_DELTA: i64 = 100_000_000;

/// The most deltas that weigh on an estimate.
pub const MAX_DELTAS: i64 = 30;

/// The nanoseconds of a millisecond.
pub const MILLISECOND: i64 = 1_000_000;

/// The longest duration there is, in nanoseconds (`i64::MAX` milliseconds).
pub const LONGEST_DURATION: i128 = 9_223_372_036_854_775_807_000_000;

/// How the network is used.
#[derive(Debug, PartialEq, Eq, Copy, Clone, Structural)]
pub enum Usage {
    Normal,
    Over,
    Under,
}

/// What the new threshold is computed from: by how much the estimate exceeds the
/// threshold and how much time has passed, both in milliseconds, and whether the
/// coefficient is the one for rising.
#[derive(Debug, PartialEq, Eq, Copy, Clone, Structural)]
pub struct ThresholdStep {
    pub rising: bool,
    pub distance: i64,
    pub elapsed: i64,
}

impl ThresholdStep {
    /// By how much the threshold changes in a step of some size: towards the
    /// estimate, and not at all where the two are less than a millisecond apart, or
    /// less than a millisecond has passed.
    pub open spec fn change(self, size: int) -> int {
        if self.distance == 0 || self.elapsed == 0 {
            0
        } else if self.distance < 0 {
            -size
        } else {
            size
        }
    }
}

/// What a report of packets amounts to.
#[derive(Debug)]
pub struct Update {
    /// How many packets were lost.
    pub lost: usize,
    /// How the delay varied, for each pair of groups that was done.
    pub measures: Vec<i128>,
}

/// Monitors packet loss and network overuse.
#[derive(Debug)]
pub struct DetectorInner {
    group: PacketGroup,
    prev_group: Option<PacketGroup>,
    measure: i128,
    last_inter_departure_times: Vec<i128>,
    last_received_packets: VecDeque<Packet>,
    estimate: i128,
    threshold: i64,
    last_threshold_update: Option<u64>,
    num_deltas: i64,
    increasing_counter: u32,
    last_overuse_estimate: i128,
    last_use_detector_update: u64,
    increasing_duration: i128,
    rtts: VecDeque<i128>,
    usage: Usage,
}

/// The mathematical value of a `DetectorInner`.
#[verifier::ext_equal]
pub struct DetectorView {
    pub group: PacketGroupView,
    pub previous: Option<PacketGroupView>,
    pub measure: int,
    pub departures: Seq<int>,
    pub received: Seq<Packet>,
    pub estimate: int,
    pub threshold: int,
    pub last_threshold_update: Option<int>,
    pub num_deltas: int,
    pub increasing_counter: int,
    pub last_overuse_estimate: int,
    pub last_use_detector_update: int,
    pub increasing_duration: int,
    pub rtts: Seq<int>,
    pub usage: Usage,
}

/// The values of some durations.
pub open spec fn durations(values: Seq<i128>) -> Seq<int> {
    values.map_values(|value: i128| value as int)
}

/// The time from `earlier` to `now`, none if `now` is not later.
pub open spec fn since(now: int, earlier: int) -> int {
    if now > earlier {
        now - earlier
    } else {
        0
    }
}

/// A duration in milliseconds, without the fraction.
pub open spec fn milliseconds(duration: int) -> int {
    if duration >= 0 {
        duration / (MILLISECOND as int)
    } else {
        -((-duration) / (MILLISECOND as int))
    }
}

/// A number without its sign.
pub open spec fn absolute(value: int) -> int {
    if value < 0 {
        -value
    } else {
        value
    }
}

/// The number within two bounds that is closest to `value`.
pub open spec fn clamped(value: int, low: int, high: int) -> int {
    if value < low {
        low
    } else if value > high {
        high
    } else {
        value
    }
}

impl DetectorView {
    /// What is remembered is bounded and in order, and the threshold is in range.
    pub open spec fn wf(self) -> bool {
        &&& in_order(self.received)
        &&& self.previous matches Some(group) ==> group.arrival is Some
        &&& self.departures.len() <= LAST_INTER_DEPARTURE_SIZE
        &&& self.rtts.len() <= ROUND_TRIP_TIME_WINDOW_SIZE
        &&& MIN_THRESHOLD <= self.threshold <= MAX_THRESHOLD
        &&& 0 <= self.num_deltas
        &&& 0 <= self.increasing_duration
    }

    /// A detector at the start.
    pub open spec fn initial(now: int) -> DetectorView {
        DetectorView {
            group: PacketGroupView::empty(),
            previous: None,
            measure: 0,
            departures: Seq::empty(),
            received: Seq::empty(),
            estimate: 0,
            threshold: INITIAL_DEL_VAR_TH as int,
            last_threshold_update: None,
            num_deltas: 0,
            increasing_counter: 0,
            last_overuse_estimate: 0,
            last_use_detector_update: now,
            increasing_duration: 0,
            rtts: Seq::empty(),
            usage: Usage::Normal,
        }
    }

    /// How far packets have been put into groups.
    pub open spec fn grouping(self) -> Grouping {
        Grouping {
            group: self.group,
            previous: self.previous,
            departures: self.departures,
            measures: Seq::empty(),
        }
    }

    /// A round trip is added.
    pub open spec fn update_rtts(self, packets: Seq<Packet>, now: int) -> DetectorView {
        DetectorView {
            rtts: remember(
                self.rtts,
                shortest_round_trip(packets, now),
                ROUND_TRIP_TIME_WINDOW_SIZE as int,
            ),
            ..self
        }
    }

    /// Packets that are too old are forgotten.
    pub open spec fn evict_old_received_packets(self) -> DetectorView {
        DetectorView { received: recent(self.received), ..self }
    }

    /// The measures that a report gives.
    pub open spec fn measures(self, packets: Seq<Packet>) -> Seq<int> {
        self.grouping().steps(packets).measures
    }

    /// A report of packets, which arrives at `now`.
    pub open spec fn update(self, packets: Seq<Packet>, now: int) -> DetectorView {
        let grouped = self.grouping().steps(packets);
        DetectorView {
            group: grouped.group,
            previous: grouped.previous,
            departures: grouped.departures,
            measure: if grouped.measures.len() == 0 {
                self.measure
            } else {
                grouped.measures.last()
            },
            received: recent(with_packets(self.received, packets)),
            ..self.update_rtts(packets, now)
        }
    }

    /// The estimate, weighed by the number of deltas that it rests on.
    pub open spec fn weighed(self) -> int {
        if self.num_deltas + 1 < 2 {
            self.estimate
        } else if self.num_deltas + 1 < MAX_DELTAS {
            self.estimate * (self.num_deltas + 1)
        } else {
            self.estimate * MAX_DELTAS
        }
    }

    /// Where the weighed estimate stands to the threshold.
    pub open spec fn compared(self) -> Usage {
        if self.num_deltas + 1 < 2 {
            Usage::Normal
        } else if self.weighed() > self.threshold {
            Usage::Over
        } else if self.weighed() < -self.threshold {
            Usage::Under
        } else {
            Usage::Normal
        }
    }

    /// How the threshold is to follow an estimate, unless that is too far above
    /// it.
    pub open spec fn threshold_step(self, estimate: int, now: int) -> Option<ThresholdStep> {
        let size = absolute(estimate);
        let last = match self.last_threshold_update {
            None => now,
            Some(last) => last,
        };
        if size > self.threshold + MAX_M_MINUS_DEL_VAR_TH {
            None
        } else {
            Some(
                ThresholdStep {
                    rising: size >= self.threshold,
                    distance: milliseconds(size - self.threshold) as i64,
                    elapsed: milliseconds(
                        clamped(since(now, last), 0, MAX_TIME_DELTA as int),
                    ) as i64,
                },
            )
        }
    }

    /// The step that the threshold takes when the estimate is compared at `now`.
    pub open spec fn upcoming_step(self, now: int) -> Option<ThresholdStep> {
        if self.num_deltas + 1 < 2 {
            None
        } else {
            self.threshold_step(self.weighed(), now)
        }
    }

    /// The threshold follows an estimate, within its range. How far it goes is
    /// `size`, where it goes at all.
    pub open spec fn update_threshold(self, estimate: int, now: int, size: int) -> DetectorView {
        DetectorView {
            threshold: match self.threshold_step(estimate, now) {
                None => self.threshold,
                Some(step) => clamped(
                    self.threshold + step.change(size),
                    MIN_THRESHOLD as int,
                    MAX_THRESHOLD as int,
                ),
            },
            last_threshold_update: Some(now),
            ..self
        }
    }

    /// Whether one more delta can be counted, and the weighed estimate is in the
    /// range of 64 bits where it is compared.
    pub open spec fn comparable(self) -> bool {
        &&& self.num_deltas < i64::MAX
        &&& self.num_deltas + 1 >= 2 ==> i64::MIN < self.weighed() <= i64::MAX
    }

    /// One more delta is counted, and from the second on the threshold follows the
    /// weighed estimate.
    pub open spec fn compare_threshold(self, now: int, size: int) -> DetectorView {
        let counted = DetectorView { num_deltas: self.num_deltas + 1, ..self };
        if self.num_deltas + 1 < 2 {
            counted
        } else {
            counted.update_threshold(self.weighed(), now, size)
        }
    }

    /// Overuse is signalled where it has lasted, and grows.
    pub open spec fn settle_usage(self, usage: Usage, estimate: int, now: int) -> DetectorView {
        let next = DetectorView {
            last_use_detector_update: now,
            last_overuse_estimate: estimate,
            ..self
        };
        match usage {
            Usage::Over => {
                let duration = self.increasing_duration + since(now, self.last_use_detector_update);
                let counter = self.increasing_counter + 1;
                DetectorView {
                    increasing_duration: duration,
                    increasing_counter: counter,
                    usage: if duration > OVERUSE_TIME_TH && counter > 1 && estimate
                        > self.last_overuse_estimate {
                        Usage::Over
                    } else {
                        self.usage
                    },
                    ..next
                }
            },
            _ => DetectorView { increasing_duration: 0, increasing_counter: 0, usage, ..next },
        }
    }

    /// Whether overuse can be counted for longer.
    pub open spec fn countable(self, now: int) -> bool {
        &&& self.increasing_counter < u32::MAX
        &&& self.increasing_duration + since(now, self.last_use_detector_update)
            <= LONGEST_DURATION
    }

    /// Whether the estimate can be compared, and overuse counted where it shows.
    pub open spec fn filterable(self, now: int) -> bool {
        &&& self.comparable()
        &&& self.compared() is Over ==> self.countable(now)
    }

    /// The estimate is compared with the threshold, which follows it, and overuse is
    /// signalled where the comparisons call for it.
    pub open spec fn overuse_filter(self, now: int, size: int) -> DetectorView {
        self.compare_threshold(now, size).settle_usage(self.compared(), self.weighed(), now)
    }
}

/// A single estimate above the threshold does not count as overuse, however far
/// above it is.
pub proof fn one_estimate_is_no_overuse(state: DetectorView, now: int, size: int)
    requires
        state.increasing_counter == 0,
        state.usage !is Over,
    ensures
        state.overuse_filter(now, size).usage !is Over,
{
}

/// Estimates that do not grow never signal overuse.
pub proof fn overuse_has_to_grow(state: DetectorView, now: int, size: int)
    requires
        state.weighed() <= state.last_overuse_estimate,
        state.usage !is Over,
    ensures
        state.overuse_filter(now, size).usage !is Over,
{
}

/// Estimates within the threshold never signal overuse.
pub proof fn overuse_is_above_the_threshold(state: DetectorView, now: int, size: int)
    requires
        state.weighed() <= state.threshold,
    ensures
        state.overuse_filter(now, size).usage !is Over,
{
}

/// The first estimate within the threshold ends overuse, and what led to it is
/// forgotten.
pub proof fn relief_is_immediate(state: DetectorView, now: int, size: int)
    requires
        state.compared() !is Over,
    ensures
        ({
            let next = state.overuse_filter(now, size);
            &&& next.usage == state.compared()
            &&& next.increasing_counter == 0
            &&& next.increasing_duration == 0
        }),
{
}

/// The threshold follows the size of the estimates: one below it never raises it,
/// one that is not below it never lowers it, and one that is too far above it leaves
/// it alone. The first estimate leaves it alone too. However it moves, it stays in
/// its range.
pub proof fn the_threshold_follows_the_estimate(
    state: DetectorView,
    estimate: int,
    now: int,
    size: int,
)
    requires
        state.wf(),
        size >= 0,
    ensures
        ({
            let next = state.update_threshold(estimate, now, size);
            &&& MIN_THRESHOLD <= next.threshold <= MAX_THRESHOLD
            &&& absolute(estimate) < state.threshold ==> next.threshold <= state.threshold
            &&& absolute(estimate) >= state.threshold ==> next.threshold >= state.threshold
            &&& absolute(estimate) - state.threshold > MAX_M_MINUS_DEL_VAR_TH ==> next.threshold
                == state.threshold
            &&& state.last_threshold_update is None ==> next.threshold == state.threshold
            &&& next.last_threshold_update == Some(now)
        }),
{
}

/// Every state that a detector reaches is sound: what it remembers is bounded and
/// in order, and its threshold is in range.
pub proof fn detectors_stay_sound(
    state: DetectorView,
    packets: Seq<Packet>,
    estimate: int,
    now: int,
    size: int,
)
    requires
        state.wf(),
    ensures
        state.update(packets, now).wf(),
        state.compare_threshold(now, size).wf(),
        state.update_threshold(estimate, now, size).wf(),
        state.overuse_filter(now, size).wf(),
{
    arrivals_keep_the_order(state.received, packets);
    eviction_keeps_the_window(with_packets(state.received, packets));
    steps_keep_wf(state.grouping(), packets);
}

impl View for DetectorInner {
    type V = DetectorView;

    closed spec fn view(&self) -> DetectorView {
        DetectorView {
            group: self.group@,
            previous: match self.prev_group {
                None => None,
                Some(group) => Some(group@),
            },
            measure: self.measure as int,
            departures: durations(self.last_inter_departure_times@),
            received: self.last_received_packets@,
            estimate: self.estimate as int,
            threshold: self.threshold as int,
            last_threshold_update: match self.last_threshold_update {
                None => None,
                Some(last) => Some(last as int),
            },
            num_deltas: self.num_deltas as int,
            increasing_counter: self.increasing_counter as int,
            last_overuse_estimate: self.last_overuse_estimate as int,
            last_use_detector_update: self.last_use_detector_update as int,
            increasing_duration: self.increasing_duration as int,
            rtts: durations(self.rtts@),
            usage: self.usage,
        }
    }
}

/// The time from `earlier` to `now`, none if `now` is not later.
fn time_since(now: u64, earlier: u64) -> (time: u64)
    ensures
        time == since(now as int, earlier as int),
{
    if now > earlier {
        now - earlier
    } else {
        0
    }
}

/// The duration in milliseconds, without the fraction.
fn whole_milliseconds(duration: i64) -> (ms: i64)
    requires
        duration > i64::MIN,
    ensures
        ms == milliseconds(duration as int),
{
    if duration >= 0 {
        (duration as u64 / 1_000_000) as i64
    } else {
        -((((-duration) as u64) / 1_000_000) as i64)
    }
}

impl DetectorInner {
    /// A detector at the start.
    pub fn new(now: u64) -> (detector: DetectorInner)
        ensures
            detector@ == DetectorView::initial(now as int),
            detector@.wf(),
    {
        let detector = DetectorInner {
            group: PacketGroup::new(),
            prev_group: None,
            measure: 0,
            last_inter_departure_times: Vec::new(),
            last_received_packets: VecDeque::new(),
            estimate: 0,
            threshold: INITIAL_DEL_VAR_TH,
            last_threshold_update: None,
            num_deltas: 0,
            increasing_counter: 0,
            last_overuse_estimate: 0,
            last_use_detector_update: now,
            increasing_duration: 0,
            rtts: VecDeque::new(),
            usage: Usage::Normal,
        };
        assert(durations(Seq::empty()) =~= Seq::<int>::empty());
        detector
    }

    /// How the network is used.
    pub fn usage(&self) -> (usage: Usage)
        ensures
            usage == self@.usage,
    {
        self.usage
    }

    /// The last measure of the delay's variation.
    pub fn measure(&self) -> (measure: i128)
        ensures
            measure == self@.measure,
    {
        self.measure
    }

    /// The estimate of the delay's variation.
    pub fn estimate(&self) -> (estimate: i128)
        ensures
            estimate == self@.estimate,
    {
        self.estimate
    }

    /// The threshold that estimates are compared with.
    pub fn threshold(&self) -> (threshold: i64)
        ensures
            threshold == self@.threshold,
    {
        self.threshold
    }

    /// How many packets are remembered.
    pub fn received(&self) -> (count: usize)
        ensures
            count == self@.received.len(),
    {
        self.last_received_packets.len()
    }

    /// The round trips that are remembered, the oldest first.
    pub fn rtts(&self) -> (rtts: Vec<i128>)
        ensures
            durations(rtts@) == self@.rtts,
    {
        let mut rtts: Vec<i128> = Vec::new();
        let mut at: usize = 0;
        while at < self.rtts.len()
            invariant
                at <= self.rtts@.len(),
                rtts@ == self.rtts@.take(at as int),
            decreases self.rtts@.len() - at,
        {
            rtts.push(self.rtts[at]);
            at = at + 1;
        }
        assert(self.rtts@.take(at as int) =~= self.rtts@);
        rtts
    }

    /// Takes over the estimate that the filter gave.
    pub fn set_estimate(&mut self, estimate: i128)
        ensures
            final(self)@ == (DetectorView { estimate: estimate as int, ..old(self)@ }),
            old(self)@.wf() ==> final(self)@.wf(),
    {
        self.estimate = estimate;
    }

    /// Remembers a packet that was received, at its place.
    fn update_last_received_packets(&mut self, packet: Packet)
        requires
            old(self)@.wf(),
        ensures
            final(self)@ == (DetectorView {
                received: with_packet(old(self)@.received, packet),
                ..old(self)@
            }),
            final(self)@.wf(),
    {
        let mut low: usize = 0;
        let mut high: usize = self.last_received_packets.len();
        while low < high
            invariant
                low <= high <= self.last_received_packets@.len(),
                in_order(self.last_received_packets@),
                low == 0 || self.last_received_packets@[low - 1].arrival < packet.arrival,
                high == self.last_received_packets@.len() || self.last_received_packets@[high as
                int].arrival >= packet.arrival,
            decreases high - low,
        {
            let middle: usize = low + (high - low) / 2;
            if self.last_received_packets[middle].arrival < packet.arrival {
                low = middle + 1;
            } else {
                high = middle;
            }
        }
        proof {
            lemma_place_is(self.last_received_packets@, packet.arrival as int, low as int);
            an_arrival_keeps_the_order(self.last_received_packets@, packet);
        }
        self.last_received_packets.insert(low, packet);
    }

    /// Forgets packets that are too old.
    fn evict_old_received_packets(&mut self)
        requires
            old(self)@.wf(),
            old(self)@.received.len() > 0,
        ensures
            final(self)@ == old(self)@.evict_old_received_packets(),
            final(self)@.wf(),
            final(self)@.received.len() > 0,
    {
        let ghost all = self@.received;
        proof {
            eviction_keeps_the_window(all);
        }
        let newest: usize = self.last_received_packets.len() - 1;
        let last_arrival = self.last_received_packets[newest].arrival;
        while last_arrival as i128 - self.last_received_packets[0].arrival as i128
            > PACKETS_RECEIVED_WINDOW as i128
            invariant
                self@ == (DetectorView { received: self@.received, ..old(self)@ }),
                self@.received.len() > 0,
                self@.received.last().arrival == last_arrival,
                recent(self@.received) == recent(all),
            decreases self@.received.len(),
        {
            let ghost before = self@.received;
            let _ = self.last_received_packets.pop_front();
            assert(self@.received =~= before.drop_first());
            assert(before.len() > 1);
            assert(self@.received.last() == before.last());
        }
    }

    /// What arrived in the window: the bytes, and the time between the first
    /// arrival and the last. Nothing where nothing arrived.
    pub fn effective_window(&mut self) -> (window: Option<(u128, i128)>)
        requires
            old(self)@.wf(),
        ensures
            final(self)@ == old(self)@.evict_old_received_packets(),
            final(self)@.wf(),
            window is Some <==> old(self)@.received.len() > 0,
            window matches Some((bytes, span)) ==> {
                &&& bytes == bytes_of(final(self)@.received)
                &&& span == final(self)@.received.last().arrival
                    - final(self)@.received[0].arrival
            },
    {
        if self.last_received_packets.len() == 0 {
            return None;
        }
        self.evict_old_received_packets();
        let count: usize = self.last_received_packets.len();
        let mut bytes: u128 = 0;
        let mut at: usize = 0;
        while at < count
            invariant
                at <= count == self.last_received_packets@.len(),
                bytes == bytes_of(self.last_received_packets@.take(at as int)),
            decreases count - at,
        {
            let ghost done = self.last_received_packets@.take(at as int);
            let ghost more = self.last_received_packets@.take(at + 1);
            proof {
                assert(more.drop_last() =~= done);
                assert(more.last() == self.last_received_packets@[at as int]);
                lemma_bytes_bound(done);
                assert(at * 0xffff_ffff <= usize::MAX * 0xffff_ffff);
            }
            bytes = bytes + self.last_received_packets[at].size as u128;
            at = at + 1;
        }
        assert(self.last_received_packets@.take(at as int) =~= self.last_received_packets@);
        let span = self.last_received_packets[count - 1].arrival as i128
            - self.last_received_packets[0].arrival as i128;
        Some((bytes, span))
    }

    /// Remembers the shortest round trip of some packets.
    fn update_rtts(&mut self, packets: &Vec<Packet>, now: u64)
        requires
            old(self)@.wf(),
        ensures
            final(self)@ == old(self)@.update_rtts(packets@, duration_of(now)),
            final(self)@.wf(),
    {
        let now = ts2dur(now);
        let mut rtt: i128 = i64::MAX as i128;
        let mut at: usize = 0;
        while at < packets.len()
            invariant
                at <= packets@.len(),
                rtt == shortest_round_trip(packets@.take(at as int), now as int),
            decreases packets@.len() - at,
        {
            let ghost more = packets@.take(at + 1);
            assert(more.drop_last() =~= packets@.take(at as int));
            assert(more.last() == packets@[at as int]);
            let this = now as i128 - packets[at].departure as i128;
            if this < rtt {
                rtt = this;
            }
            at = at + 1;
        }
        assert(packets@.take(at as int) =~= packets@);
        let ghost before = self.rtts@;
        self.rtts.push_back(rtt);
        assert(durations(before.push(rtt)) =~= durations(before).push(rtt as int));
        if self.rtts.len() > ROUND_TRIP_TIME_WINDOW_SIZE {
            let ghost long = self.rtts@;
            let _ = self.rtts.pop_front();
            assert(durations(self.rtts@) =~= durations(long).drop_first());
        }
    }

    /// Ends the current group. Where there was one before, gives the measure of
    /// the two.
    fn close_group(&mut self) -> (measure: Option<i128>)
        requires
            old(self)@.wf(),
            old(self)@.group.arrival is Some,
        ensures
            final(self)@.wf(),
            ({
                let before = old(self)@.grouping();
                let closed = before.close();
                &&& measure is Some <==> before.previous is Some
                &&& measure matches Some(value) ==> closed.measures == seq![value as int]
                &&& measure is None ==> closed.measures.len() == 0
                &&& final(self)@ == (DetectorView {
                    group: closed.group,
                    previous: closed.previous,
                    departures: closed.departures,
                    measure: match measure {
                        Some(value) => value as int,
                        None => old(self)@.measure,
                    },
                    ..old(self)@
                })
            }),
    {
        let mut group = PacketGroup::new();
        std::mem::swap(&mut group, &mut self.group);
        let previous = self.prev_group.take();
        let mut measure: Option<i128> = None;
        if let Some(previous) = previous {
            let ghost before = self.last_inter_departure_times@;
            let time = group.inter_departure_time(&previous);
            self.last_inter_departure_times.push(time);
            assert(durations(before.push(time)) =~= durations(before).push(time as int));
            if self.last_inter_departure_times.len() > LAST_INTER_DEPARTURE_SIZE {
                let ghost long = self.last_inter_departure_times@;
                let _ = self.last_inter_departure_times.remove(0);
                assert(durations(self.last_inter_departure_times@) =~= durations(
                    long,
                ).drop_first());
            }
            let variation = group.inter_delay_variation(&previous);
            self.measure = variation;
            measure = Some(variation);
        }
        self.prev_group = Some(group);
        measure
    }

    /// Puts a packet that arrived into its group. Gives a measure where that ends
    /// the group.
    fn group_packet(&mut self, packet: &Packet) -> (measure: Option<i128>)
        requires
            old(self)@.wf(),
            !packet.is_lost(),
        ensures
            final(self)@.wf(),
            ({
                let stepped = old(self)@.grouping().step(*packet);
                &&& measure matches Some(value) ==> stepped.measures == seq![value as int]
                &&& measure is None ==> stepped.measures.len() == 0
                &&& final(self)@ == (DetectorView {
                    group: stepped.group,
                    previous: stepped.previous,
                    departures: stepped.departures,
                    measure: match measure {
                        Some(value) => value as int,
                        None => old(self)@.measure,
                    },
                    ..old(self)@
                })
            }),
    {
        match self.group.arrival {
            None => {
                self.group.add(*packet);
                None
            },
            Some(arrival) => {
                if packet.arrival < arrival || packet.departure < self.group.departure {
                    None
                } else if self.group.inter_departure_time_pkt(packet) < BURST_TIME as i128 {
                    self.group.add(*packet);
                    None
                } else if self.group.inter_arrival_time_pkt(packet) < BURST_TIME as i128
                    && self.group.inter_delay_variation_pkt(packet) < 0 {
                    self.group.add(*packet);
                    None
                } else {
                    self.close_group()
                }
            },
        }
    }

    /// Takes in a report of packets, which arrived when the clock read `now`.
    pub fn update(&mut self, packets: &Vec<Packet>, now: u64) -> (update: Update)
        requires
            old(self)@.wf(),
            with_packets(old(self)@.received, packets@).len() > 0,
        ensures
            final(self)@ == old(self)@.update(packets@, duration_of(now)),
            final(self)@.wf(),
            update.lost == lost_among(packets@),
            durations(update.measures@) == old(self)@.measures(packets@),
    {
        let ghost start = self@;
        self.update_rtts(packets, now);
        let mut lost: usize = 0;
        let mut measures: Vec<i128> = Vec::new();
        let mut at: usize = 0;
        assert(packets@.take(0) =~= Seq::empty());
        assert(durations(measures@) =~= Seq::<int>::empty());
        while at < packets.len()
            invariant
                at <= packets@.len(),
                self@.wf(),
                lost == lost_among(packets@.take(at as int)),
                lost <= at,
                durations(measures@) == start.grouping().steps(packets@.take(at as int)).measures,
                ({
                    let grouped = start.grouping().steps(packets@.take(at as int));
                    self@ == (DetectorView {
                        group: grouped.group,
                        previous: grouped.previous,
                        departures: grouped.departures,
                        measure: if grouped.measures.len() == 0 {
                            start.measure
                        } else {
                            grouped.measures.last()
                        },
                        received: with_packets(start.received, packets@.take(at as int)),
                        ..start.update_rtts(packets@, duration_of(now))
                    })
                }),
            decreases packets@.len() - at,
        {
            let ghost done = packets@.take(at as int);
            let ghost more = packets@.take(at + 1);
            proof {
                assert(more.drop_last() =~= done);
                assert(more.last() == packets@[at as int]);
                lemma_lost_bound(done);
            }
            let packet = packets[at];
            if packet.arrival == 0 {
                lost = lost + 1;
            } else {
                let ghost grouped = start.grouping().steps(done);
                self.update_last_received_packets(packet);
                let ghost here = self@.grouping();
                assert(Grouping { measures: grouped.measures, ..here } == grouped);
                assert(grouped.step(packet).measures =~= grouped.measures + here.step(
                    packet,
                ).measures);
                let measure = self.group_packet(&packet);
                assert(start.grouping().steps(more) == grouped.step(packet));
                if let Some(value) = measure {
                    let ghost shorter = measures@;
                    measures.push(value);
                    assert(durations(measures@) =~= durations(shorter).push(value as int));
                }
            }
            at = at + 1;
        }
        assert(packets@.take(at as int) =~= packets@);
        self.evict_old_received_packets();
        Update { lost, measures }
    }

    /// Counts one more delta and compares the weighed estimate with the threshold,
    /// which then follows it. `size` is how far the threshold goes in the step that
    /// `upcoming_step` gives.
    pub fn compare_threshold(&mut self, now: u64, size: u64) -> (compared: (Usage, i128))
        requires
            old(self)@.wf(),
            old(self)@.comparable(),
        ensures
            compared.0 == old(self)@.compared(),
            compared.1 == old(self)@.weighed(),
            final(self)@ == old(self)@.compare_threshold(now as int, size as int),
            final(self)@.wf(),
    {
        let usage = self.compared();
        self.num_deltas = self.num_deltas + 1;
        if self.num_deltas < 2 {
            return (usage, self.estimate);
        }
        let estimate = self.weigh(self.num_deltas);
        self.update_threshold(estimate, now, size);
        (usage, estimate as i128)
    }

    /// The step that the threshold takes when the estimate is compared at `now`.
    pub fn upcoming_step(&self, now: u64) -> (step: Option<ThresholdStep>)
        requires
            self@.wf(),
            self@.comparable(),
        ensures
            step == self@.upcoming_step(now as int),
    {
        if self.num_deltas < 1 {
            return None;
        }
        let estimate = self.weigh(self.num_deltas + 1);
        self.threshold_step(estimate, now)
    }

    /// Whether one more delta can be counted, and the weighed estimate is in the
    /// range of 64 bits where it is compared.
    pub fn can_compare(&self) -> (answer: bool)
        requires
            self@.wf(),
        ensures
            answer == self@.comparable(),
    {
        if self.num_deltas == i64::MAX {
            return false;
        }
        if self.num_deltas < 1 {
            return true;
        }
        let value = self.estimate;
        let low: i128 = i64::MIN as i128;
        let high: i128 = i64::MAX as i128;
        let weight: i64 = if self.num_deltas + 1 < MAX_DELTAS {
            self.num_deltas + 1
        } else {
            MAX_DELTAS
        };
        if value <= low || value > high {
            assert(value * weight <= i64::MIN || value * weight > i64::MAX) by (nonlinear_arith)
                requires
                    value <= i64::MIN || value > i64::MAX,
                    weight >= 1,
            ;
            return false;
        }
        assert(i64::MIN * 30 <= value * weight <= i64::MAX * 30) by (nonlinear_arith)
            requires
                i64::MIN < value <= i64::MAX,
                1 <= weight <= 30,
        ;
        let product: i128 = value * weight as i128;
        low < product && product <= high
    }

    /// Where the weighed estimate stands to the threshold.
    fn compared(&self) -> (usage: Usage)
        requires
            self@.wf(),
            self@.comparable(),
        ensures
            usage == self@.compared(),
    {
        if self.num_deltas < 1 {
            return Usage::Normal;
        }
        let estimate = self.weigh(self.num_deltas + 1);
        if estimate > self.threshold {
            Usage::Over
        } else if estimate < -self.threshold {
            Usage::Under
        } else {
            Usage::Normal
        }
    }

    /// Whether the estimate can be compared, and overuse counted where it shows.
    pub fn can_filter(&self, now: u64) -> (answer: bool)
        requires
            self@.wf(),
        ensures
            answer == self@.filterable(now as int),
    {
        if !self.can_compare() {
            return false;
        }
        match self.compared() {
            Usage::Over => {
                let delta = time_since(now, self.last_use_detector_update);
                self.increasing_counter < u32::MAX && self.increasing_duration
                    <= LONGEST_DURATION - delta as i128
            },
            Usage::Under | Usage::Normal => true,
        }
    }

    /// The estimate times a number of deltas, of which only so many weigh.
    fn weigh(&self, deltas: i64) -> (estimate: i64)
        requires
            deltas >= 2,
            ({
                let weighed = self@.estimate * clamped(deltas as int, 2, MAX_DELTAS as int);
                i64::MIN < weighed <= i64::MAX
            }),
        ensures
            estimate == self@.estimate * clamped(deltas as int, 2, MAX_DELTAS as int),
    {
        let value = self.estimate;
        let weight: i64 = if deltas < MAX_DELTAS {
            deltas
        } else {
            MAX_DELTAS
        };
        assert(i64::MIN < value <= i64::MAX) by (nonlinear_arith)
            requires
                i64::MIN < value * weight <= i64::MAX,
                2 <= weight,
        ;
        (value * weight as i128) as i64
    }

    /// How the threshold is to follow an estimate.
    fn threshold_step(&self, estimate: i64, now: u64) -> (step: Option<ThresholdStep>)
        requires
            self@.wf(),
            estimate > i64::MIN,
        ensures
            step == self@.threshold_step(estimate as int, now as int),
    {
        let last = match self.last_threshold_update {
            None => now,
            Some(last) => last,
        };
        let size: i64 = if estimate < 0 {
            -estimate
        } else {
            estimate
        };
        if size > self.threshold + MAX_M_MINUS_DEL_VAR_TH {
            return None;
        }
        let passed = time_since(now, last);
        let elapsed: i64 = if passed > MAX_TIME_DELTA as u64 {
            MAX_TIME_DELTA
        } else {
            passed as i64
        };
        Some(
            ThresholdStep {
                rising: size >= self.threshold,
                distance: whole_milliseconds(size - self.threshold),
                elapsed: whole_milliseconds(elapsed),
            },
        )
    }

    /// Lets the threshold follow an estimate, within its range: down where the
    /// estimate's size is below it, up where it is not, and not at all where it is
    /// too far above. `size` is how far it goes, where it goes at all.
    pub fn update_threshold(&mut self, estimate: i64, now: u64, size: u64)
        requires
            old(self)@.wf(),
            estimate > i64::MIN,
        ensures
            final(self)@ == old(self)@.update_threshold(
                estimate as int,
                now as int,
                size as int,
            ),
            final(self)@.wf(),
            absolute(estimate as int) < old(self)@.threshold ==> final(self)@.threshold
                <= old(self)@.threshold,
            absolute(estimate as int) >= old(self)@.threshold ==> final(self)@.threshold
                >= old(self)@.threshold,
            old(self)@.last_threshold_update is None ==> final(self)@.threshold
                == old(self)@.threshold,
    {
        proof {
            the_threshold_follows_the_estimate(
                self@,
                estimate as int,
                now as int,
                size as int,
            );
        }
        let step = self.threshold_step(estimate, now);
        if let Some(step) = step {
            let moved: i128 = if step.distance == 0 || step.elapsed == 0 {
                self.threshold as i128
            } else if step.distance < 0 {
                self.threshold as i128 - size as i128
            } else {
                self.threshold as i128 + size as i128
            };
            self.threshold = if moved < MIN_THRESHOLD as i128 {
                MIN_THRESHOLD
            } else if moved > MAX_THRESHOLD as i128 {
                MAX_THRESHOLD
            } else {
                moved as i64
            };
        }
        self.last_threshold_update = Some(now);
    }

    /// Compares the estimate with the threshold, which follows it, and decides how
    /// the network is used. `size` is how far the threshold goes in the step that
    /// `upcoming_step` gives.
    pub fn overuse_filter(&mut self, now: u64, size: u64)
        requires
            old(self)@.wf(),
            old(self)@.filterable(now as int),
        ensures
            final(self)@ == old(self)@.overuse_filter(now as int, size as int),
            final(self)@.wf(),
    {
        let (th_usage, estimate) = self.compare_threshold(now, size);
        self.settle_usage(th_usage, estimate, now);
    }

    /// Decides how the network is used, given where the estimate stands to the
    /// threshold.
    fn settle_usage(&mut self, th_usage: Usage, estimate: i128, now: u64)
        requires
            old(self)@.wf(),
            th_usage is Over ==> old(self)@.countable(now as int),
        ensures
            final(self)@ == old(self)@.settle_usage(th_usage, estimate as int, now as int),
            final(self)@.wf(),
    {
        let delta = time_since(now, self.last_use_detector_update);
        self.last_use_detector_update = now;
        match th_usage {
            Usage::Over => {
                self.increasing_duration = self.increasing_duration + delta as i128;
                self.increasing_counter = self.increasing_counter + 1;
                if self.increasing_duration > OVERUSE_TIME_TH as i128 && self.increasing_counter > 1
                    && estimate > self.last_overuse_estimate {
                    self.usage = Usage::Over;
                }
            },
            Usage::Under | Usage::Normal => {
                self.increasing_duration = 0;
                self.increasing_counter = 0;
                self.usage = th_usage;
            },
        }
        self.last_overuse_estimate = estimate;
    }
}

} // verus!
