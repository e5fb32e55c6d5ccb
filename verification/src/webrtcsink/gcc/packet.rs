//! Packets as the receiver reports them, and the bursts that they arrive in.
use vstd::prelude::*;

verus! {

/// Packets that are sent closer to each other than this form a group (5 ms).
pub const BURST_TIME: i64 = 5_000_000;

/// A clock's reading, as a duration since the clock's origin. Readings past the
/// range of `i64` come out negative.
pub open spec fn duration_of(reading: u64) -> int {
    if reading <= i64::MAX {
        reading as int
    } else {
        reading - 0x1_0000_0000_0000_0000
    }
}

/// The duration that a clock's reading stands for.
pub fn ts2dur(reading: u64) -> (duration: i64)
    ensures
        duration == duration_of(reading),
{
    if reading <= 0x7fff_ffff_ffff_ffff {
        reading as i64
    } else {
        let short: u64 = 0xffff_ffff_ffff_ffff - reading;
        -1 - (short as i64)
    }
}

/// What the transport tells about one packet. Times are readings of a clock.
#[derive(Debug, Clone, Copy)]
pub struct Feedback {
    /// Whether the packet did not arrive.
    pub lost: bool,
    /// When it was sent, if that is known.
    pub local_ts: Option<u64>,
    /// When it arrived.
    pub remote_ts: Option<u64>,
    /// How many bytes it had.
    pub size: u32,
}

/// A packet that was sent. One that was lost has an arrival of zero.
#[derive(Debug, Clone, Copy)]
pub struct Packet {
    pub departure: i64,
    pub arrival: i64,
    pub size: u32,
}

impl Packet {
    /// The packet that a piece of feedback is about. Feedback that does not say
    /// when its packet was sent is of no use.
    pub fn from_structure(structure: &Feedback) -> (packet: Option<Packet>)
        requires
            structure.local_ts is Some && !structure.lost ==> structure.remote_ts is Some,
        ensures
            packet is Some <==> structure.local_ts is Some,
            packet matches Some(p) ==> {
                &&& p.departure == duration_of(structure.local_ts->0)
                &&& p.size == structure.size
                &&& p.arrival == (if structure.lost {
                    0
                } else {
                    duration_of(structure.remote_ts->0)
                })
            },
    {
        match structure.local_ts {
            None => None,
            Some(local) => {
                let departure = ts2dur(local);
                let mut arrival: i64 = 0;
                if !structure.lost {
                    if let Some(remote) = structure.remote_ts {
                        arrival = ts2dur(remote);
                    }
                }
                Some(Packet { departure, arrival, size: structure.size })
            },
        }
    }

    /// Whether the packet did not arrive.
    pub open spec fn is_lost(self) -> bool {
        self.arrival == 0
    }
}

/// Packets that were sent in one burst.
#[derive(Debug)]
pub struct PacketGroup {
    pub packets: Vec<Packet>,
    /// When the first of them was sent.
    pub departure: i64,
    /// When the last of them arrived.
    pub arrival: Option<i64>,
}

/// The mathematical value of a `PacketGroup`.
#[verifier::ext_equal]
pub struct PacketGroupView {
    pub packets: Seq<Packet>,
    pub departure: int,
    pub arrival: Option<int>,
}

impl PacketGroupView {
    /// A group that no packet belongs to yet.
    pub open spec fn empty() -> PacketGroupView {
        PacketGroupView { packets: Seq::empty(), departure: 0, arrival: None }
    }

    /// The group with one more packet.
    pub open spec fn plus(self, packet: Packet) -> PacketGroupView {
        PacketGroupView {
            packets: self.packets.push(packet),
            departure: if self.departure == 0 {
                packet.departure as int
            } else {
                self.departure
            },
            arrival: Some(
                match self.arrival {
                    None => packet.arrival as int,
                    Some(latest) => if packet.arrival > latest {
                        packet.arrival as int
                    } else {
                        latest
                    },
                },
            ),
        }
    }

    /// How much later than the group the packet was sent.
    pub open spec fn departure_gap(self, packet: Packet) -> int {
        packet.departure - self.departure
    }

    /// How much later than the group the packet arrived.
    pub open spec fn arrival_gap(self, packet: Packet) -> int {
        packet.arrival - self.arrival->0
    }

    /// How much more two groups are apart on arrival than they were on departure.
    pub open spec fn delay_variation(self, previous: PacketGroupView) -> int {
        (self.arrival->0 - previous.arrival->0) - (self.departure - previous.departure)
    }

    /// Whether a packet that was sent and arrived no earlier than the group
    /// belongs to it: one that was sent in the burst, or one that the network
    /// brought closer to the group than it was sent.
    pub open spec fn takes(self, packet: Packet) -> bool {
        ||| self.departure_gap(packet) < BURST_TIME
        ||| self.arrival_gap(packet) < BURST_TIME && self.arrival_gap(packet)
            < self.departure_gap(packet)
    }
}

impl View for PacketGroup {
    type V = PacketGroupView;

    open spec fn view(&self) -> PacketGroupView {
        PacketGroupView {
            packets: self.packets@,
            departure: self.departure as int,
            arrival: match self.arrival {
                None => None,
                Some(arrival) => Some(arrival as int),
            },
        }
    }
}

impl PacketGroup {
    /// A group that no packet belongs to yet.
    pub fn new() -> (group: PacketGroup)
        ensures
            group@ == PacketGroupView::empty(),
    {
        PacketGroup { packets: Vec::new(), departure: 0, arrival: None }
    }

    /// Adds a packet to the group.
    pub fn add(&mut self, packet: Packet)
        ensures
            final(self)@ == old(self)@.plus(packet),
    {
        if self.departure == 0 {
            self.departure = packet.departure;
        }
        self.arrival = match self.arrival {
            None => Some(packet.arrival),
            Some(latest) => Some(
                if packet.arrival > latest {
                    packet.arrival
                } else {
                    latest
                },
            ),
        };
        self.packets.push(packet);
    }

    /// How much later than `prev_group` the group arrived.
    pub fn inter_arrival_time(&self, prev_group: &PacketGroup) -> (time: i128)
        requires
            self.arrival is Some,
            prev_group.arrival is Some,
        ensures
            time == self@.arrival->0 - prev_group@.arrival->0,
    {
        self.arrival.unwrap() as i128 - prev_group.arrival.unwrap() as i128
    }

    /// How much later than the group `next_pkt` arrived.
    pub fn inter_arrival_time_pkt(&self, next_pkt: &Packet) -> (time: i128)
        requires
            self.arrival is Some,
        ensures
            time == self@.arrival_gap(*next_pkt),
    {
        next_pkt.arrival as i128 - self.arrival.unwrap() as i128
    }

    /// How much later than `prev_group` the group was sent.
    pub fn inter_departure_time(&self, prev_group: &PacketGroup) -> (time: i128)
        ensures
            time == self@.departure - prev_group@.departure,
    {
        self.departure as i128 - prev_group.departure as i128
    }

    /// How much later than the group `next_pkt` was sent.
    pub fn inter_departure_time_pkt(&self, next_pkt: &Packet) -> (time: i128)
        ensures
            time == self@.departure_gap(*next_pkt),
    {
        next_pkt.departure as i128 - self.departure as i128
    }

    /// How much more the group and `prev_group` are apart on arrival than they
    /// were on departure.
    pub fn inter_delay_variation(&self, prev_group: &PacketGroup) -> (variation: i128)
        requires
            self.arrival is Some,
            prev_group.arrival is Some,
        ensures
            variation == self@.delay_variation(prev_group@),
    {
        self.inter_arrival_time(prev_group) - self.inter_departure_time(prev_group)
    }

    /// How much more `next_pkt` and the group are apart on arrival than they were
    /// on departure.
    pub fn inter_delay_variation_pkt(&self, next_pkt: &Packet) -> (variation: i128)
        requires
            self.arrival is Some,
        ensures
            variation == self@.arrival_gap(*next_pkt) - self@.departure_gap(*next_pkt),
    {
        self.inter_arrival_time_pkt(next_pkt) - self.inter_departure_time_pkt(next_pkt)
    }
}

} // verus!
