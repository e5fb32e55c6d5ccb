//! How packets fall into bursts, and what each pair of bursts tells about delay.
use super::packet::{Packet, PacketGroupView};
use super::window::remember;
use vstd::prelude::*;

verus! {

/// How many of the last times between departures are remembered.
pub const LAST_INTER_DEPARTURE_SIZE: usize = 25;

/// How far packets have been put into groups.
#[verifier::ext_equal]
pub struct Grouping {
    /// The group that packets are added to.
    pub group: PacketGroupView,
    /// The group before it.
    pub previous: Option<PacketGroupView>,
    /// The last times between the departures of groups.
    pub departures: Seq<int>,
    /// How the delay varied from group to group.
    pub measures: Seq<int>,
}

impl Grouping {
    /// Groups that are done have arrived.
    pub open spec fn wf(self) -> bool {
        &&& self.previous matches Some(group) ==> group.arrival is Some
        &&& self.departures.len() <= LAST_INTER_DEPARTURE_SIZE
    }

    /// The current group is done. Where there was one before, the two give a
    /// measure.
    pub open spec fn close(self) -> Grouping {
        let next = Grouping {
            group: PacketGroupView::empty(),
            previous: Some(self.group),
            ..self
        };
        match self.previous {
            None => next,
            Some(previous) => Grouping {
                departures: remember(
                    self.departures,
                    self.group.departure - previous.departure,
                    LAST_INTER_DEPARTURE_SIZE as int,
                ),
                measures: self.measures.push(self.group.delay_variation(previous)),
                ..next
            },
        }
    }

    /// One packet. Lost packets belong to no group, nor do those that come out of
    /// order. A packet that does not belong to the current group ends it.
    pub open spec fn step(self, packet: Packet) -> Grouping {
        if packet.is_lost() {
            self
        } else if self.group.arrival is None {
            Grouping { group: self.group.plus(packet), ..self }
        } else if self.group.arrival_gap(packet) < 0 || self.group.departure_gap(packet) < 0 {
            self
        } else if self.group.takes(packet) {
            Grouping { group: self.group.plus(packet), ..self }
        } else {
            self.close()
        }
    }

    /// Several packets, one after another.
    pub open spec fn steps(self, packets: Seq<Packet>) -> Grouping
        decreases packets.len(),
    {
        if packets.len() == 0 {
            self
        } else {
            self.steps(packets.drop_last()).step(packets.last())
        }
    }
}

/// Packets keep the grouping sound.
pub proof fn steps_keep_wf(state: Grouping, packets: Seq<Packet>)
    requires
        state.wf(),
    ensures
        state.steps(packets).wf(),
    decreases packets.len(),
{
    if packets.len() > 0 {
        steps_keep_wf(state, packets.drop_last());
    }
}

/// Feedback may come in one report or in several: the groups and the measures are
/// the same.
pub proof fn reports_can_be_joined(state: Grouping, first: Seq<Packet>, second: Seq<Packet>)
    ensures
        state.steps(first + second) == state.steps(first).steps(second),
    decreases second.len(),
{
    if second.len() == 0 {
        assert(first + second =~= first);
    } else {
        reports_can_be_joined(state, first, second.drop_last());
        assert((first + second).drop_last() =~= first + second.drop_last());
        assert((first + second).last() == second.last());
    }
}

/// Packets that were lost change neither groups nor measures.
pub proof fn losses_do_not_count_as_delay(state: Grouping, packets: Seq<Packet>)
    requires
        forall|i: int| 0 <= i < packets.len() ==> (#[trigger] packets[i]).is_lost(),
    ensures
        state.steps(packets) == state,
    decreases packets.len(),
{
    if packets.len() > 0 {
        let earlier = packets.drop_last();
        assert forall|i: int| 0 <= i < earlier.len() implies (#[trigger] earlier[i]).is_lost() by {
            assert(packets[i].is_lost());
        }
        losses_do_not_count_as_delay(state, earlier);
        assert(packets[packets.len() - 1].is_lost());
    }
}

/// Measures are only ever added, at most one for each packet.
pub proof fn measures_only_grow(state: Grouping, packets: Seq<Packet>)
    ensures
        state.measures.is_prefix_of(state.steps(packets).measures),
        state.steps(packets).measures.len() <= state.measures.len() + packets.len(),
    decreases packets.len(),
{
    if packets.len() > 0 {
        measures_only_grow(state, packets.drop_last());
    }
}

} // verus!
