//! What detection comes to: what counts as lost, how delay is measured, when overuse
//! is signalled. Times are in nanoseconds.
use super::detector::{absolute, clamped, durations, milliseconds, since, DetectorView};
use super::grouping::Grouping;
use super::packet::{duration_of, Packet, PacketGroup, PacketGroupView};
use super::window::{
    bytes_of, in_order, lost_among, place, recent, remember, shortest_round_trip, with_packet,
    with_packets,
};
use vstd::prelude::*;

verus! {

/// A clock's reading is the duration that has the same 64 bits.
pub proof fn readings_wrap_around(reading: u64)
    ensures
        i64::MIN <= duration_of(reading) <= i64::MAX,
        duration_of(reading) == reading || duration_of(reading) + 0x1_0000_0000_0000_0000
            == reading,
{
}

/// How far apart groups are on arrival is how far apart they were sent, plus the
/// measure: the measure is negative exactly where they arrive closer together than
/// they were sent, and positive exactly where they arrive further apart.
pub proof fn measures_have_the_sign_of_the_delay(group: PacketGroupView, previous: PacketGroupView)
    ensures
        ({
            let measure = group.delay_variation(previous);
            let sent = group.departure - previous.departure;
            let arrived = group.arrival->0 - previous.arrival->0;
            &&& measure + sent == arrived
            &&& measure < 0 <==> arrived < sent
            &&& measure > 0 <==> arrived > sent
        }),
{
}

/// Measures along groups add up to the measure between the first and the last, and
/// there and back is nothing.
pub proof fn measures_add_up(
    first: PacketGroupView,
    second: PacketGroupView,
    third: PacketGroupView,
)
    ensures
        third.delay_variation(first) == third.delay_variation(second) + second.delay_variation(
            first,
        ),
        first.delay_variation(second) == -second.delay_variation(first),
        first.delay_variation(first) == 0,
{
}

/// How much later than a group a packet was sent and arrived, in one packet's terms.
pub proof fn gaps_are_differences(group: PacketGroupView, packet: Packet)
    ensures
        group.departure + group.departure_gap(packet) == packet.departure,
        group.arrival->0 + group.arrival_gap(packet) == packet.arrival,
{
}

/// A group was sent when its first packet was and arrived when the last of its packets
/// did, whatever order they are told of in.
pub proof fn groups_span_their_packets(group: PacketGroupView, packet: Packet)
    ensures
        ({
            let next = group.plus(packet);
            &&& next.packets == group.packets.push(packet)
            &&& group.departure != 0 ==> next.departure == group.departure
            &&& group.departure == 0 ==> next.departure == packet.departure
            &&& next.arrival is Some
            &&& next.arrival->0 >= packet.arrival
            &&& group.arrival is None ==> next.arrival->0 == packet.arrival
            &&& group.arrival matches Some(latest) ==> {
                &&& next.arrival->0 >= latest
                &&& next.arrival->0 == latest || next.arrival->0 == packet.arrival
            }
        }),
        PacketGroupView::empty().packets.len() == 0,
        PacketGroupView::empty().departure == 0,
        PacketGroupView::empty().arrival is None,
{
}

/// What becomes of a packet. One that was lost, or comes out of order, changes nothing.
/// The first one starts a group. One that was sent less than 5 ms after the group, or
/// arrived less than 5 ms after it and closer to it than it was sent, joins the group.
/// Any other ends the group: it becomes the previous one, and where there was one
/// before, the two give one measure more and one time between departures.
pub proof fn packets_find_their_group(state: Grouping, packet: Packet)
    ensures
        ({
            let next = state.step(packet);
            let group = state.group;
            let latest = group.arrival->0;
            let late = packet.arrival < latest || packet.departure < group.departure;
            let close = packet.departure - group.departure < 5_000_000 || (packet.arrival - latest
                < 5_000_000 && packet.arrival - latest < packet.departure - group.departure);
            let joined = Grouping { group: group.plus(packet), ..state };
            &&& packet.arrival == 0 ==> next == state
            &&& packet.arrival != 0 && group.arrival is None ==> next == joined
            &&& packet.arrival != 0 && group.arrival is Some && late ==> next == state
            &&& packet.arrival != 0 && group.arrival is Some && !late && close ==> next == joined
            &&& packet.arrival != 0 && group.arrival is Some && !late && !close ==> {
                &&& next.previous == Some(group)
                &&& next.group.packets.len() == 0
                &&& next.group.departure == 0
                &&& next.group.arrival is None
                &&& state.previous is None ==> next.measures == state.measures
                    && next.departures == state.departures
                &&& state.previous matches Some(previous) ==> {
                    let sent = group.departure - previous.departure;
                    &&& next.measures.len() == state.measures.len() + 1
                    &&& next.measures.drop_last() == state.measures
                    &&& next.measures.last() + sent == latest - previous.arrival->0
                    &&& next.departures.last() == sent
                    &&& state.departures.len() < 25 ==> next.departures == state.departures.push(
                        sent,
                    )
                    &&& state.departures.len() == 25 ==> next.departures
                        == state.departures.drop_first().push(sent)
                }
            }
        }),
{
    let next = state.step(packet);
    if next.measures.len() > state.measures.len() {
        assert(next.measures.drop_last() =~= state.measures);
    }
    if state.departures.len() == 25 {
        let sent = state.group.departure - state.previous->0.departure;
        assert(state.departures.push(sent).drop_first() =~= state.departures.drop_first().push(
            sent,
        ));
    }
}

/// Several packets are put into groups one after another, the first first.
pub proof fn packets_are_grouped_in_order(state: Grouping, packet: Packet)
    ensures
        state.steps(Seq::empty()) == state,
        state.steps(seq![packet]) == state.step(packet),
{
    let one = seq![packet];
    assert(one.drop_last() =~= Seq::empty());
    assert(one.last() == packet);
    assert(state.steps(Seq::empty()) == state);
}

/// What is remembered ends with the latest value, keeps the order, and holds the
/// latest of the values up to the limit.
pub proof fn the_latest_are_remembered(values: Seq<int>, value: int, limit: int)
    requires
        0 < limit,
        values.len() <= limit,
    ensures
        remember(values, value, limit).len() <= limit,
        remember(values, value, limit).last() == value,
        values.len() < limit ==> remember(values, value, limit) == values.push(value),
        values.len() == limit ==> remember(values, value, limit) == values.push(value).skip(1),
{
    assert(values.push(value).drop_first() =~= values.push(value).skip(1));
}

/// Lost and arrived packets make up a report: those that were lost are those without
/// an arrival, each of which counts, and the others arrived.
pub proof fn lost_and_arrived_make_up_a_report(packets: Seq<Packet>)
    ensures
        lost_among(packets) == packets.filter(|packet: Packet| packet.arrival == 0).len(),
        lost_among(packets) + packets.filter(|packet: Packet| packet.arrival != 0).len()
            == packets.len(),
    decreases packets.len(),
{
    reveal(Seq::filter);
    if packets.len() > 0 {
        lost_and_arrived_make_up_a_report(packets.drop_last());
    }
}

/// The losses of two reports are the losses of both together, and one packet counts
/// exactly if it has no arrival.
pub proof fn losses_add_up(first: Seq<Packet>, second: Seq<Packet>, packet: Packet)
    ensures
        lost_among(first + second) == lost_among(first) + lost_among(second),
        lost_among(seq![packet]) == (if packet.arrival == 0 {
            1nat
        } else {
            0nat
        }),
    decreases second.len(),
{
    let one = seq![packet];
    assert(one.drop_last() =~= Seq::empty());
    assert(lost_among(one.drop_last()) == 0);
    if second.len() == 0 {
        assert(first + second =~= first);
    } else {
        assert((first + second).drop_last() =~= first + second.drop_last());
        assert((first + second).last() == second.last());
        losses_add_up(first, second.drop_last(), packet);
    }
}

/// The bytes of two lots of packets are the bytes of both together, and one packet has
/// as many as it says.
pub proof fn bytes_add_up(first: Seq<Packet>, second: Seq<Packet>, packet: Packet)
    ensures
        bytes_of(first + second) == bytes_of(first) + bytes_of(second),
        bytes_of(seq![packet]) == packet.size,
    decreases second.len(),
{
    let one = seq![packet];
    assert(one.drop_last() =~= Seq::empty());
    assert(bytes_of(one.drop_last()) == 0);
    if second.len() == 0 {
        assert(first + second =~= first);
    } else {
        assert((first + second).drop_last() =~= first + second.drop_last());
        assert((first + second).last() == second.last());
        bytes_add_up(first, second.drop_last(), packet);
    }
}

/// The round trip of a report is no longer than that of any of its packets, and is that
/// of one of them unless none is shorter than the longest time there is.
pub proof fn the_round_trip_is_the_shortest(packets: Seq<Packet>, now: int)
    ensures
        ({
            let trip = shortest_round_trip(packets, now);
            &&& trip <= i64::MAX
            &&& forall|i: int|
                0 <= i < packets.len() ==> trip <= now - (#[trigger] packets[i]).departure
            &&& trip == i64::MAX || exists|i: int|
                0 <= i < packets.len() && trip == now - (#[trigger] packets[i]).departure
        }),
    decreases packets.len(),
{
    if packets.len() > 0 {
        let shorter = packets.drop_last();
        the_round_trip_is_the_shortest(shorter, now);
        let trip = shortest_round_trip(packets, now);
        let best = shortest_round_trip(shorter, now);
        assert forall|i: int| 0 <= i < packets.len() implies trip <= now - (
        #[trigger] packets[i]).departure by {
            if i < shorter.len() {
                assert(shorter[i] == packets[i]);
            }
        }
        if trip == best {
            if trip != i64::MAX {
                let i = choose|i: int|
                    0 <= i < shorter.len() && best == now - (#[trigger] shorter[i]).departure;
                assert(packets[i] == shorter[i]);
            }
        } else {
            assert(trip == now - packets[packets.len() - 1].departure);
        }
    }
}

/// A packet that arrived goes behind those that arrived earlier and before those that
/// did not. The others keep their order.
pub proof fn packets_are_kept_by_arrival(received: Seq<Packet>, packet: Packet)
    requires
        forall|i: int, j: int|
            0 <= i <= j < received.len() ==> #[trigger] received[i].arrival
                <= #[trigger] received[j].arrival,
    ensures
        ({
            let next = with_packet(received, packet);
            let at = place(received, packet.arrival as int);
            &&& 0 <= at <= received.len()
            &&& next == received.take(at) + seq![packet] + received.skip(at)
            &&& forall|i: int|
                0 <= i < received.len() ==> (i < at <==> #[trigger] received[i].arrival
                    < packet.arrival)
        }),
{
    super::window::lemma_place(received, packet.arrival as int);
    let at = place(received, packet.arrival as int);
    assert(with_packet(received, packet) =~= received.take(at) + seq![packet] + received.skip(at));
}

/// Of a report, exactly the packets that arrived are remembered, one after another, on
/// top of those that were.
pub proof fn arrived_packets_are_remembered(
    received: Seq<Packet>,
    first: Seq<Packet>,
    second: Seq<Packet>,
    packet: Packet,
)
    ensures
        with_packets(received, Seq::empty()) == received,
        packet.arrival == 0 ==> with_packets(received, seq![packet]) == received,
        packet.arrival != 0 ==> with_packets(received, seq![packet]) == with_packet(
            received,
            packet,
        ),
        with_packets(received, first + second) == with_packets(
            with_packets(received, first),
            second,
        ),
    decreases second.len(),
{
    let one = seq![packet];
    assert(one.drop_last() =~= Seq::empty());
    assert(one.last() == packet);
    assert(with_packets(received, one.drop_last()) == received);
    if second.len() == 0 {
        assert(first + second =~= first);
    } else {
        assert((first + second).drop_last() =~= first + second.drop_last());
        assert((first + second).last() == second.last());
        arrived_packets_are_remembered(received, first, second.drop_last(), packet);
    }
}

/// However a report is cut, as many packets are remembered as arrived.
pub proof fn as_many_are_remembered_as_arrived(received: Seq<Packet>, packets: Seq<Packet>)
    requires
        in_order(received),
    ensures
        with_packets(received, packets).len() + lost_among(packets) == received.len()
            + packets.len(),
    decreases packets.len(),
{
    if packets.len() > 0 {
        let earlier = packets.drop_last();
        as_many_are_remembered_as_arrived(received, earlier);
        super::window::arrivals_keep_the_order(received, earlier);
        super::window::lemma_place(
            with_packets(received, earlier),
            packets.last().arrival as int,
        );
    }
}

/// The packets that are kept are those that arrived no more than one second before the
/// last arrival, and all of those.
pub proof fn a_second_is_remembered(received: Seq<Packet>)
    requires
        forall|i: int, j: int|
            0 <= i <= j < received.len() ==> #[trigger] received[i].arrival
                <= #[trigger] received[j].arrival,
    ensures
        ({
            let kept = recent(received);
            let gone = received.len() - kept.len();
            &&& 0 <= gone <= received.len()
            &&& kept == received.skip(gone)
            &&& forall|i: int|
                0 <= i < received.len() ==> (i >= gone <==> received.last().arrival - (
                #[trigger] received[i]).arrival <= 1_000_000_000)
        }),
{
    super::window::eviction_keeps_the_window(received);
}

/// A report changes what is known of packets, and nothing of how the network is used.
/// It leaves one round trip more, and the last measure that it gave, if it gave any.
pub proof fn reports_are_taken_in(state: DetectorView, packets: Seq<Packet>, now: int)
    requires
        state.rtts.len() <= 100,
    ensures
        ({
            let next = state.update(packets, now);
            let start = Grouping {
                group: state.group,
                previous: state.previous,
                departures: state.departures,
                measures: Seq::empty(),
            };
            let grouped = start.steps(packets);
            &&& state.measures(packets) == grouped.measures
            &&& next.group == grouped.group
            &&& next.previous == grouped.previous
            &&& next.departures == grouped.departures
            &&& grouped.measures.len() == 0 ==> next.measure == state.measure
            &&& grouped.measures.len() > 0 ==> next.measure == grouped.measures.last()
            &&& next.received == recent(with_packets(state.received, packets))
            &&& next.rtts.len() == (if state.rtts.len() < 100 {
                state.rtts.len() + 1
            } else {
                100
            })
            &&& next.rtts.last() == shortest_round_trip(packets, now)
            &&& forall|i: int|
                0 <= i < next.rtts.len() - 1 ==> #[trigger] next.rtts[i] == state.rtts[i
                    + state.rtts.len() - (next.rtts.len() - 1)]
            &&& next.estimate == state.estimate
            &&& next.threshold == state.threshold
            &&& next.last_threshold_update == state.last_threshold_update
            &&& next.num_deltas == state.num_deltas
            &&& next.increasing_counter == state.increasing_counter
            &&& next.last_overuse_estimate == state.last_overuse_estimate
            &&& next.last_use_detector_update == state.last_use_detector_update
            &&& next.increasing_duration == state.increasing_duration
            &&& next.usage == state.usage
        }),
        ({
            let next = state.evict_old_received_packets();
            next == (DetectorView { received: recent(state.received), ..state })
        }),
{
}

/// A detector starts with the network used normally, a threshold of 12.5 ms, and
/// nothing known.
pub proof fn detectors_start_out_normal(now: int)
    ensures
        ({
            let start = DetectorView::initial(now);
            &&& start.usage is Normal
            &&& start.threshold == 12_500_000
            &&& start.last_threshold_update is None
            &&& start.estimate == 0
            &&& start.measure == 0
            &&& start.num_deltas == 0
            &&& start.increasing_counter == 0
            &&& start.increasing_duration == 0
            &&& start.last_overuse_estimate == 0
            &&& start.last_use_detector_update == now
            &&& start.received.len() == 0
            &&& start.rtts.len() == 0
            &&& start.departures.len() == 0
            &&& start.previous is None
            &&& start.group.arrival is None
            &&& start.group.departure == 0
            &&& start.group.packets.len() == 0
        }),
{
}

/// The first estimate counts as it is and is not compared. From the second on an
/// estimate counts as often as there were estimates, but no more than thirty times,
/// and is held against the threshold on either side.
pub proof fn estimates_are_weighed(state: DetectorView)
    requires
        state.num_deltas >= 0,
    ensures
        state.num_deltas == 0 ==> state.weighed() == state.estimate && state.compared() is Normal,
        1 <= state.num_deltas <= 29 ==> state.weighed() == state.estimate * (state.num_deltas + 1),
        state.num_deltas >= 29 ==> state.weighed() == state.estimate * 30,
        state.num_deltas > 0 ==> {
            &&& state.compared() is Over <==> state.weighed() > state.threshold
            &&& state.compared() is Under <==> state.weighed() < -state.threshold && !(
            state.weighed() > state.threshold)
        },
{
}

/// An estimate of the opposite sign weighs the opposite, and one more of it weighs the
/// estimate more, up to thirty.
pub proof fn weights_grow_with_the_count(state: DetectorView)
    requires
        1 <= state.num_deltas < 29,
    ensures
        (DetectorView { estimate: -state.estimate, ..state }).weighed() == -state.weighed(),
        (DetectorView { num_deltas: state.num_deltas + 1, ..state }).weighed() == state.weighed()
            + state.estimate,
{
    let (e, n) = (state.estimate, state.num_deltas);
    assert((-e) * (n + 1) == -(e * (n + 1))) by (nonlinear_arith);
    assert(e * (n + 2) == e * (n + 1) + e) by (nonlinear_arith);
    assert((-e) * 30 == -(e * 30));
    if n + 2 == 30 {
        assert(e * (n + 2) == e * 30);
    }
}

/// Overuse is signalled when it is there: where the weighed estimate is above the
/// threshold, has been so for more than 10 ms in total and at least twice in a row
/// counting this time, and is greater than the last one, the network is overused
/// afterwards, whatever the size of the estimate, and however the threshold moves.
pub proof fn overuse_is_signalled(state: DetectorView, now: int, size: int)
    requires
        state.num_deltas >= 1,
        state.increasing_counter >= 1,
        state.increasing_duration > 10_000_000 || state.increasing_duration + now
            - state.last_use_detector_update > 10_000_000,
        ({
            let weight = if state.num_deltas < 29 {
                state.num_deltas + 1
            } else {
                30
            };
            &&& state.estimate * weight > state.threshold
            &&& state.estimate * weight > state.last_overuse_estimate
        }),
    ensures
        state.overuse_filter(now, size).usage is Over,
{
}

/// Overuse is signalled only then: an estimate above the threshold that comes alone, or
/// has not lasted for more than 10 ms, or does not grow leaves the signal as it is.
/// Each one counts, and so does the time since the last.
pub proof fn overuse_is_counted(state: DetectorView, now: int, size: int)
    requires
        state.num_deltas >= 1,
        ({
            let weight = if state.num_deltas < 29 {
                state.num_deltas + 1
            } else {
                30
            };
            state.estimate * weight > state.threshold
        }),
    ensures
        ({
            let next = state.overuse_filter(now, size);
            let weight = if state.num_deltas < 29 {
                state.num_deltas + 1
            } else {
                30
            };
            let passed = if now > state.last_use_detector_update {
                now - state.last_use_detector_update
            } else {
                0
            };
            &&& next.increasing_counter == state.increasing_counter + 1
            &&& next.increasing_duration == state.increasing_duration + passed
            &&& next.increasing_counter <= 1 || next.increasing_duration <= 10_000_000
                || state.estimate * weight <= state.last_overuse_estimate ==> next.usage
                == state.usage
        }),
{
}

/// An estimate that is not above the threshold ends overuse at once: the network is
/// used less where the estimate is as far below, and normally otherwise, and nothing
/// is left of what was counted. The first estimate always means normal use.
pub proof fn overuse_ends_at_once(state: DetectorView, now: int, size: int)
    requires
        state.num_deltas >= 0,
        state.threshold >= 0,
        ({
            let weight = if state.num_deltas < 29 {
                state.num_deltas + 1
            } else {
                30
            };
            state.num_deltas == 0 || state.estimate * weight <= state.threshold
        }),
    ensures
        ({
            let next = state.overuse_filter(now, size);
            let weight = if state.num_deltas < 29 {
                state.num_deltas + 1
            } else {
                30
            };
            &&& next.increasing_counter == 0
            &&& next.increasing_duration == 0
            &&& next.usage is Under <==> state.num_deltas >= 1 && state.estimate * weight
                < -state.threshold
            &&& next.usage !is Under ==> next.usage is Normal
        }),
{
}

/// Whatever is filtered, it counts as one more estimate, and is what the next one has
/// to exceed. What is known of packets stays.
pub proof fn estimates_are_noted(state: DetectorView, now: int, size: int)
    requires
        state.num_deltas >= 0,
    ensures
        ({
            let next = state.overuse_filter(now, size);
            let weight = if state.num_deltas < 29 {
                state.num_deltas + 1
            } else {
                30
            };
            &&& next.num_deltas == state.num_deltas + 1
            &&& next.last_overuse_estimate == state.estimate * weight
            &&& next.last_use_detector_update == now
            &&& next.estimate == state.estimate
            &&& next.group == state.group
            &&& next.previous == state.previous
            &&& next.measure == state.measure
            &&& next.departures == state.departures
            &&& next.received == state.received
            &&& next.rtts == state.rtts
            &&& state.num_deltas == 0 ==> {
                &&& next.threshold == state.threshold
                &&& next.last_threshold_update == state.last_threshold_update
            }
            &&& state.num_deltas >= 1 ==> {
                let followed = state.update_threshold(state.estimate * weight, now, size);
                &&& next.threshold == followed.threshold
                &&& next.last_threshold_update == followed.last_threshold_update
            }
        }),
{
    assert(state.estimate * 1 == state.estimate);
}

/// Two estimates in a row above the threshold, the second greater than the first and
/// more than 10 ms after what came before them, signal overuse.
pub proof fn growing_estimates_signal_overuse(
    state: DetectorView,
    estimate: int,
    first: int,
    second: int,
    first_size: int,
    second_size: int,
)
    requires
        state.num_deltas >= 1,
        state.increasing_duration >= 0,
        state.increasing_counter >= 0,
        state.last_use_detector_update <= first <= second,
        second - state.last_use_detector_update > 10_000_000,
        state.weighed() > state.threshold,
        ({
            let noted = DetectorView {
                estimate,
                ..state.overuse_filter(first, first_size)
            };
            &&& noted.weighed() > noted.threshold
            &&& noted.weighed() > state.weighed()
        }),
    ensures
        ({
            let noted = DetectorView { estimate, ..state.overuse_filter(first, first_size) };
            noted.overuse_filter(second, second_size).usage is Over
        }),
{
    let noted = DetectorView { estimate, ..state.overuse_filter(first, first_size) };
    estimates_are_weighed(state);
    overuse_is_counted(state, first, first_size);
    estimates_are_noted(state, first, first_size);
    estimates_are_weighed(noted);
    overuse_is_signalled(noted, second, second_size);
}

/// How the threshold goes after an estimate: by `size` towards the estimate's amount,
/// where the two are at least 1 ms and at most 15 ms apart (or the amount is below), and
/// at least 1 ms has passed since it last did. It stays between 6 ms and 600 ms.
/// Otherwise it stays where it is. Either way the time is noted.
pub proof fn thresholds_go_towards_the_estimates(
    state: DetectorView,
    estimate: int,
    now: int,
    size: int,
)
    requires
        6_000_000 <= state.threshold <= 600_000_000,
        size >= 0,
    ensures
        ({
            let next = state.update_threshold(estimate, now, size);
            let amount = if estimate < 0 {
                -estimate
            } else {
                estimate
            };
            let above = amount - state.threshold;
            let waited = state.last_threshold_update matches Some(last) && now - last >= 1_000_000;
            &&& !waited ==> next.threshold == state.threshold
            &&& above > 15_000_000 ==> next.threshold == state.threshold
            &&& -1_000_000 < above < 1_000_000 ==> next.threshold == state.threshold
            &&& waited && 1_000_000 <= above <= 15_000_000 ==> {
                &&& state.threshold + size <= 600_000_000 ==> next.threshold == state.threshold
                    + size
                &&& state.threshold + size > 600_000_000 ==> next.threshold == 600_000_000
            }
            &&& waited && above <= -1_000_000 ==> {
                &&& state.threshold - size >= 6_000_000 ==> next.threshold == state.threshold
                    - size
                &&& state.threshold - size < 6_000_000 ==> next.threshold == 6_000_000
            }
            &&& next.last_threshold_update == Some(now)
            &&& next == (DetectorView {
                threshold: next.threshold,
                last_threshold_update: Some(now),
                ..state
            })
        }),
{
}

/// What the size of a step is computed from: how far the estimate's amount is from the
/// threshold and how much time has passed, up to 100 ms, both in whole milliseconds
/// towards zero, and whether the amount is no less than the threshold. There is no step
/// where the amount is more than 15 ms above.
pub proof fn steps_are_measured(state: DetectorView, estimate: int, now: int)
    requires
        6_000_000 <= state.threshold <= 600_000_000,
    ensures
        ({
            let amount = if estimate < 0 {
                -estimate
            } else {
                estimate
            };
            let above = amount - state.threshold;
            let passed = match state.last_threshold_update {
                Some(last) => if now - last < 0 {
                    0
                } else if now - last > 100_000_000 {
                    100_000_000
                } else {
                    now - last
                },
                None => 0,
            };
            &&& state.threshold_step(estimate, now) is None <==> above > 15_000_000
            &&& state.threshold_step(estimate, now) matches Some(step) ==> {
                &&& step.rising <==> above >= 0
                &&& above >= 0 ==> step.distance * 1_000_000 <= above < (step.distance + 1)
                    * 1_000_000
                &&& above < 0 ==> (step.distance - 1) * 1_000_000 < above <= step.distance
                    * 1_000_000
                &&& step.elapsed * 1_000_000 <= passed < (step.elapsed + 1) * 1_000_000
            }
        }),
        state.num_deltas == 0 ==> state.upcoming_step(now) is None,
        state.num_deltas >= 1 ==> state.upcoming_step(now) == state.threshold_step(
            state.weighed(),
            now,
        ),
{
}

/// Comparing an estimate counts it, and lets the threshold follow it from the second
/// estimate on.
pub proof fn comparing_counts_and_follows(state: DetectorView, now: int, size: int)
    requires
        state.num_deltas >= 0,
    ensures
        ({
            let next = state.compare_threshold(now, size);
            let followed = state.update_threshold(state.weighed(), now, size);
            &&& next.num_deltas == state.num_deltas + 1
            &&& state.num_deltas == 0 ==> next == (DetectorView { num_deltas: 1, ..state })
            &&& state.num_deltas >= 1 ==> next == (DetectorView {
                num_deltas: state.num_deltas + 1,
                ..followed
            })
        }),
{
}

/// An estimate can be filtered unless a count or a duration would leave its range.
pub proof fn ordinary_estimates_can_be_filtered(state: DetectorView, now: int)
    requires
        0 <= state.num_deltas < i64::MAX,
        -100_000_000_000_000_000 <= state.estimate <= 100_000_000_000_000_000,
        0 <= state.increasing_counter < u32::MAX,
        0 <= state.increasing_duration <= i64::MAX,
        0 <= now <= u64::MAX,
        0 <= state.last_use_detector_update,
    ensures
        state.comparable(),
        state.filterable(now),
{
    estimates_are_weighed(state);
    let (e, n) = (state.estimate, state.num_deltas + 1);
    if 2 <= n < 30 {
        assert(-3_000_000_000_000_000_000 <= e * n <= 3_000_000_000_000_000_000)
            by (nonlinear_arith)
            requires
                -100_000_000_000_000_000 <= e <= 100_000_000_000_000_000,
                2 <= n < 30,
        ;
    }
}

/// An estimate can be compared exactly where one more can be counted and its weight is
/// in the range of 64 bits, from the second estimate on. It can be filtered where it can
/// be compared, and overuse, if it shows, can be counted and timed.
pub proof fn estimates_are_limited(state: DetectorView, now: int)
    requires
        state.num_deltas >= 0,
    ensures
        state.comparable() <==> state.num_deltas < 0x7fff_ffff_ffff_ffff && (state.num_deltas == 0
            || -0x8000_0000_0000_0000 < state.weighed() <= 0x7fff_ffff_ffff_ffff),
        ({
            let passed = if now > state.last_use_detector_update {
                now - state.last_use_detector_update
            } else {
                0
            };
            state.filterable(now) <==> state.comparable() && (state.num_deltas == 0
                || state.weighed() <= state.threshold || (state.increasing_counter < 0xffff_ffff
                && state.increasing_duration + passed
                <= 0x7fff_ffff_ffff_ffff * 1_000_000))
        }),
{
}

/// Durations are looked at as they are.
pub proof fn durations_are_kept(values: Seq<i128>, group: PacketGroup)
    ensures
        durations(values).len() == values.len(),
        forall|i: int| 0 <= i < values.len() ==> #[trigger] durations(values)[i] == values[i],
        group@.packets == group.packets@,
        group@.departure == group.departure,
        group@.arrival is Some <==> group.arrival is Some,
        group.arrival matches Some(arrival) ==> group@.arrival->0 == arrival,
{
}

/// An amount is no less than zero and is the number or its opposite; what passed between
/// two times is their difference where the second is later; a limited number is within
/// its bounds, and is itself where it was.
pub proof fn amounts_are_as_expected(value: int, low: int, high: int)
    ensures
        absolute(value) >= 0,
        absolute(value) == value || absolute(value) == -value,
        high > low ==> since(high, low) == high - low,
        high <= low ==> since(high, low) == 0,
        low <= value <= high ==> clamped(value, low, high) == value,
        low <= high && value < low ==> clamped(value, low, high) == low,
        low <= high && value > high ==> clamped(value, low, high) == high,
        milliseconds(-value) == -milliseconds(value),
        value >= 0 ==> milliseconds(value) * 1_000_000 <= value < (milliseconds(value) + 1)
            * 1_000_000,
{
}

} // verus!
