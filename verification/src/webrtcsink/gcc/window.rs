//! The packets that were received last, in order of their arrival, and the round
//! trips that were measured last.
use super::packet::Packet;
use vstd::prelude::*;

verus! {

/// How far back received packets are remembered (1 s).
pub const PACKETS_RECEIVED_WINDOW: i64 = 1_000_000_000;

/// How many round trips are remembered.
pub const ROUND_TRIP_TIME_WINDOW_SIZE: usize = 100;

/// Whether packets stand in order of their arrival.
pub open spec fn in_order(received: Seq<Packet>) -> bool {
    forall|i: int, j: int|
        0 <= i <= j < received.len() ==> #[trigger] received[i].arrival
            <= #[trigger] received[j].arrival
}

/// Where a packet that arrives at `arrival` belongs: before every packet at the
/// end that arrived no earlier.
pub open spec fn place(received: Seq<Packet>, arrival: int) -> int
    decreases received.len(),
{
    if received.len() == 0 || received.last().arrival < arrival {
        received.len() as int
    } else {
        place(received.drop_last(), arrival)
    }
}

/// The packets with one more, at its place.
pub open spec fn with_packet(received: Seq<Packet>, packet: Packet) -> Seq<Packet> {
    received.insert(place(received, packet.arrival as int), packet)
}

/// The packets with those of `packets` that were not lost, each at its place.
pub open spec fn with_packets(received: Seq<Packet>, packets: Seq<Packet>) -> Seq<Packet>
    decreases packets.len(),
{
    if packets.len() == 0 {
        received
    } else {
        let earlier = with_packets(received, packets.drop_last());
        if packets.last().is_lost() {
            earlier
        } else {
            with_packet(earlier, packets.last())
        }
    }
}

/// The packets that arrived.
pub open spec fn arrived(packets: Seq<Packet>) -> Seq<Packet> {
    packets.filter(|packet: Packet| !packet.is_lost())
}

/// The packets without those at the front that arrived too long before the last.
pub open spec fn recent(received: Seq<Packet>) -> Seq<Packet>
    decreases received.len(),
{
    if received.len() > 0 && received.last().arrival - received[0].arrival
        > PACKETS_RECEIVED_WINDOW {
        recent(received.drop_first())
    } else {
        received
    }
}

/// How many of the packets were lost.
pub open spec fn lost_among(packets: Seq<Packet>) -> nat
    decreases packets.len(),
{
    if packets.len() == 0 {
        0
    } else {
        lost_among(packets.drop_last()) + (if packets.last().is_lost() {
            1nat
        } else {
            0nat
        })
    }
}

/// How many bytes the packets have together.
pub open spec fn bytes_of(packets: Seq<Packet>) -> nat
    decreases packets.len(),
{
    if packets.len() == 0 {
        0
    } else {
        bytes_of(packets.drop_last()) + packets.last().size as nat
    }
}

/// The shortest time that passed between the departure of one of the packets and
/// `now`, and the longest time there is where there are none.
pub open spec fn shortest_round_trip(packets: Seq<Packet>, now: int) -> int
    decreases packets.len(),
{
    if packets.len() == 0 {
        i64::MAX as int
    } else {
        let best = shortest_round_trip(packets.drop_last(), now);
        let this = now - packets.last().departure;
        if this < best {
            this
        } else {
            best
        }
    }
}

/// The sequence with `value` at its end, and without its first where it would
/// hold more than `limit`.
pub open spec fn remember(values: Seq<int>, value: int, limit: int) -> Seq<int> {
    if values.len() + 1 > limit {
        values.push(value).drop_first()
    } else {
        values.push(value)
    }
}

/// A packet's place parts those that arrived earlier from the others.
pub proof fn lemma_place(received: Seq<Packet>, arrival: int)
    requires
        in_order(received),
    ensures
        0 <= place(received, arrival) <= received.len(),
        forall|i: int|
            0 <= i < place(received, arrival) ==> #[trigger] received[i].arrival < arrival,
        forall|i: int|
            place(received, arrival) <= i < received.len() ==> #[trigger] received[i].arrival
                >= arrival,
    decreases received.len(),
{
    if received.len() > 0 {
        let shorter = received.drop_last();
        if received.last().arrival < arrival {
            assert forall|i: int| 0 <= i < received.len() implies #[trigger] received[i].arrival
                < arrival by {
                assert(received[i].arrival <= received[received.len() - 1].arrival);
            }
        } else {
            assert(in_order(shorter)) by {
                assert forall|i: int, j: int| 0 <= i <= j < shorter.len() implies #[trigger]
                    shorter[i].arrival <= #[trigger] shorter[j].arrival by {
                    assert(received[i].arrival <= received[j].arrival);
                }
            }
            lemma_place(shorter, arrival);
            assert forall|i: int| 0 <= i < place(received, arrival) implies #[trigger]
                received[i].arrival < arrival by {
                assert(shorter[i].arrival < arrival);
            }
            assert forall|i: int|
                place(received, arrival) <= i < received.len() implies #[trigger]
                received[i].arrival >= arrival by {
                if i < shorter.len() {
                    assert(shorter[i].arrival >= arrival);
                }
            }
        }
    }
}

/// A place is the only index that parts the earlier packets from the others.
pub proof fn lemma_place_is(received: Seq<Packet>, arrival: int, at: int)
    requires
        in_order(received),
        0 <= at <= received.len(),
        at == 0 || received[at - 1].arrival < arrival,
        at == received.len() || received[at].arrival >= arrival,
    ensures
        place(received, arrival) == at,
{
    lemma_place(received, arrival);
    let found = place(received, arrival);
    if found < at {
        assert(received[found].arrival <= received[at - 1].arrival);
    } else if at < found {
        assert(received[at].arrival <= received[found - 1].arrival);
    }
}

/// Packets stay in order of their arrival when one more arrives.
pub proof fn an_arrival_keeps_the_order(received: Seq<Packet>, packet: Packet)
    requires
        in_order(received),
    ensures
        in_order(with_packet(received, packet)),
        with_packet(received, packet).to_multiset() == received.to_multiset().insert(packet),
{
    lemma_place(received, packet.arrival as int);
    let at = place(received, packet.arrival as int);
    let next = with_packet(received, packet);
    assert forall|i: int, j: int| 0 <= i <= j < next.len() implies #[trigger] next[i].arrival
        <= #[trigger] next[j].arrival by {
        if i < at {
            if j < at {
                assert(received[i].arrival <= received[j].arrival);
            } else if j > at {
                assert(received[i].arrival <= received[j - 1].arrival);
            }
        } else if i > at {
            assert(received[i - 1].arrival <= received[j - 1].arrival);
        } else if j > at {
            assert(received[j - 1].arrival >= packet.arrival);
        }
    }
    received.to_multiset_ensures();
    assert(received.insert(at, packet).to_multiset() == received.to_multiset().insert(packet)) by {
        vstd::seq_lib::to_multiset_insert(received, at, packet);
    }
}

/// Packets stay in order of their arrival when several arrive, and each that did
/// is there once.
pub proof fn arrivals_keep_the_order(received: Seq<Packet>, packets: Seq<Packet>)
    requires
        in_order(received),
    ensures
        in_order(with_packets(received, packets)),
        with_packets(received, packets).to_multiset() == received.to_multiset().add(
            arrived(packets).to_multiset(),
        ),
    decreases packets.len(),
{
    reveal(Seq::filter);
    if packets.len() > 0 {
        let earlier = packets.drop_last();
        arrivals_keep_the_order(received, earlier);
        if !packets.last().is_lost() {
            an_arrival_keeps_the_order(with_packets(received, earlier), packets.last());
            arrived(earlier).to_multiset_ensures();
            assert(arrived(packets) == arrived(earlier).push(packets.last()));
            assert(with_packets(received, packets).to_multiset() =~= received.to_multiset().add(
                arrived(packets).to_multiset(),
            ));
        }
    } else {
        arrived(packets).to_multiset_ensures();
        assert(arrived(packets).len() == 0);
        assert(received.to_multiset().add(arrived(packets).to_multiset())
            =~= received.to_multiset());
    }
}

/// What is remembered is what arrived within the window before the last arrival:
/// the end of the sequence, and all of it that is young enough.
pub proof fn eviction_keeps_the_window(received: Seq<Packet>)
    requires
        in_order(received),
    ensures
        in_order(recent(received)),
        recent(received).len() <= received.len(),
        recent(received) == received.skip(received.len() - recent(received).len()),
        received.len() > 0 ==> recent(received).len() > 0,
        forall|i: int|
            0 <= i < received.len() ==> (i >= received.len() - recent(received).len()
                <==> received.last().arrival - (#[trigger] received[i]).arrival
                <= PACKETS_RECEIVED_WINDOW),
    decreases received.len(),
{
    if received.len() == 0 {
        assert(received.skip(0) =~= received);
    } else if received.last().arrival - received[0].arrival > PACKETS_RECEIVED_WINDOW {
        let rest = received.drop_first();
        assert(received.len() > 1);
        assert(rest.last() == received.last());
        assert(in_order(rest)) by {
            assert forall|i: int, j: int| 0 <= i <= j < rest.len() implies #[trigger]
                rest[i].arrival <= #[trigger] rest[j].arrival by {
                assert(received[i + 1].arrival <= received[j + 1].arrival);
            }
        }
        eviction_keeps_the_window(rest);
        let kept = recent(received);
        assert(rest.skip(rest.len() - kept.len()) =~= received.skip(received.len() - kept.len()));
        assert forall|i: int| 0 <= i < received.len() implies (i >= received.len() - kept.len()
            <==> received.last().arrival - (#[trigger] received[i]).arrival
            <= PACKETS_RECEIVED_WINDOW) by {
            if i > 0 {
                assert(rest[i - 1] == received[i]);
            }
        }
    } else {
        assert(received.skip(0) =~= received);
        assert forall|i: int| 0 <= i < received.len() implies received.last().arrival - (
        #[trigger] received[i]).arrival <= PACKETS_RECEIVED_WINDOW by {
            assert(received[0].arrival <= received[i].arrival);
        }
    }
}

/// Bytes fit in 96 bits.
pub proof fn lemma_bytes_bound(packets: Seq<Packet>)
    ensures
        bytes_of(packets) <= packets.len() * 0xffff_ffff,
    decreases packets.len(),
{
    if packets.len() > 0 {
        lemma_bytes_bound(packets.drop_last());
    }
}

/// The losses among some packets are no more than the packets.
pub proof fn lemma_lost_bound(packets: Seq<Packet>)
    ensures
        lost_among(packets) <= packets.len(),
    decreases packets.len(),
{
    if packets.len() > 0 {
        lemma_lost_bound(packets.drop_last());
    }
}

} // verus!
