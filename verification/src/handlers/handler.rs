//! The executable handler.
use super::error::{HandlerError, HandlerErrorView, Role};
use super::model::{to_each, Arrival, HandlerView, Item};
use super::wellformed::{
    end_session_keeps_wf, queue_keeps_wf, register_keeps_wf, remove_consumer_keeps_wf,
    remove_listener_keeps_wf, remove_producer_keeps_wf, start_session_keeps_wf,
};
use crate::peers::{lemma_with, with, without, Id, PeerMap, PeerSet};
use crate::protocol::{
    EndSessionMessage, IncomingMessage, OutgoingMessage, Peer, PeerMessage, PeerMessageInfo,
    PeerMessageInner, RegisterMessage, RegisteredMessage, SdpMessage, UnregisterMessage,
    UnregisteredMessage,
};
use serde_json::Value;
use std::collections::VecDeque;
use vstd::prelude::*;

verus! {

/// A queued message and the peer it is for, as a specification sees them.
pub open spec fn item_view(item: (String, OutgoingMessage)) -> Item {
    (item.0@, item.1@)
}

/// Why a request was refused, if it was, as a specification sees it.
pub open spec fn answer_view(answer: Result<(), HandlerError>) -> Result<(), HandlerErrorView> {
    match answer {
        Ok(_) => Ok(()),
        Err(refusal) => Err(refusal@),
    }
}

/// What arrives from a peer, as a specification sees it.
pub open spec fn arrival_view(arrival: (String, Option<IncomingMessage>)) -> Arrival {
    (
        arrival.0@,
        match arrival.1 {
            Some(request) => Some(request@),
            None => None,
        },
    )
}

/// What arrives from peers, as a specification sees it.
pub open spec fn arrivals_view(arrivals: Seq<(String, Option<IncomingMessage>)>) -> Seq<Arrival> {
    arrivals.map_values(|arrival: (String, Option<IncomingMessage>)| arrival_view(arrival))
}

/// Takes requests from peers, keeps track of who is registered and who is in a
/// session with whom, and queues the messages to be sent.
pub struct Handler {
    items: VecDeque<(String, OutgoingMessage)>,
    producers: PeerMap<PeerSet>,
    consumers: PeerMap<PeerSet>,
    listeners: PeerSet,
    meta: PeerMap<Option<Value>>,
}

impl View for Handler {
    type V = HandlerView;

    closed spec fn view(&self) -> HandlerView {
        HandlerView {
            items: self.items@.map_values(|item: (String, OutgoingMessage)| item_view(item)),
            producer_ids: self.producers.ids(),
            producers: self.producers@.map_values(|set: PeerSet| set@),
            consumers: self.consumers@.map_values(|set: PeerSet| set@),
            listeners: self.listeners@,
            meta: self.meta@,
        }
    }
}

/// Queues the same message for each of some peers.
fn send_each(
    items: &mut VecDeque<(String, OutgoingMessage)>,
    to: &PeerSet,
    message: &OutgoingMessage,
)
    ensures
        final(items)@.map_values(|item: (String, OutgoingMessage)| item_view(item)) == old(
            items,
        )@.map_values(|item: (String, OutgoingMessage)| item_view(item)) + to_each(to@, message@),
{
    let ghost before = items@.map_values(|item: (String, OutgoingMessage)| item_view(item));
    let mut at: usize = 0;
    assert(to_each(to@.take(0), message@) =~= Seq::empty());
    assert(before + to_each(to@.take(0), message@) =~= before);
    while at < to.len()
        invariant
            at <= to@.len(),
            items@.map_values(|item: (String, OutgoingMessage)| item_view(item)) == before
                + to_each(to@.take(at as int), message@),
        decreases to@.len() - at,
    {
        let ghost middle = items@;
        let item = (to.get(at).clone(), message.clone());
        items.push_back(item);
        proof {
            assert(items@.map_values(|item: (String, OutgoingMessage)| item_view(item))
                =~= middle.map_values(|item: (String, OutgoingMessage)| item_view(item)).push(
                item_view(item),
            ));
            assert(to@.take(at + 1) =~= to@.take(at as int).push(to@[at as int]));
            assert(to_each(to@.take(at + 1), message@) =~= to_each(
                to@.take(at as int),
                message@,
            ).push((to@[at as int], message@)));
        }
        at = at + 1;
    }
    assert(to@.take(at as int) =~= to@);
}

impl Handler {
    /// The tables are in order, and so is what they say of the peers.
    pub closed spec fn wf(&self) -> bool {
        &&& self.producers.wf()
        &&& self.consumers.wf()
        &&& self.meta.wf()
        &&& self@.wf()
    }

    /// A well-formed handler's state is well-formed.
    pub proof fn lemma_state_wf(&self)
        requires
            self.wf(),
        ensures
            self@.wf(),
    {
    }

    /// Create a handler
    pub fn new() -> (handler: Handler)
        ensures
            handler.wf(),
            handler@ == HandlerView::empty(),
    {
        let handler = Handler {
            items: VecDeque::new(),
            producers: PeerMap::new(),
            consumers: PeerMap::new(),
            listeners: PeerSet::new(),
            meta: PeerMap::new(),
        };
        assert(handler@ =~= HandlerView::empty());
        handler
    }

    /// Queues a message.
    fn send(&mut self, to: &str, message: OutgoingMessage)
        requires
            old(self).wf(),
        ensures
            final(self).wf(),
            final(self)@ == old(self)@.send(to@, message@),
    {
        let ghost before = *self;
        let item = (to.to_owned(), message);
        self.items.push_back(item);
        proof {
            assert(self@.items =~= before@.items.push((to@, message@)));
            queue_keeps_wf(before@, self@);
        }
    }

    /// What a peer told about itself, if anything is kept of it.
    fn meta_of(&self, peer_id: &str) -> (meta: Option<Value>)
        requires
            self.wf(),
        ensures
            meta == self@.meta_of(peer_id@),
    {
        match self.meta.get(peer_id) {
            Some(meta) => meta.clone(),
            None => None,
        }
    }

    /// Hands out the oldest queued message, with the peer it is for.
    pub fn next_item(&mut self) -> (item: Option<(String, OutgoingMessage)>)
        requires
            old(self).wf(),
        ensures
            final(self).wf(),
            match item {
                Some(first) => {
                    &&& old(self)@.items.len() > 0
                    &&& item_view(first) == old(self)@.items.first()
                    &&& final(self)@ == (HandlerView {
                        items: old(self)@.items.drop_first(),
                        ..old(self)@
                    })
                },
                None => old(self)@.items.len() == 0 && final(self)@ == old(self)@,
            },
    {
        let ghost before = *self;
        let item = self.items.pop_front();
        proof {
            if item is Some {
                assert(self@.items =~= before@.items.drop_first());
                queue_keeps_wf(before@, self@);
            }
        }
        item
    }

    /// Takes what arrives from a peer: a request, or with `None` the news that the
    /// peer is gone. A refused request is answered with the reason.
    pub fn receive(&mut self, peer_id: &str, msg: Option<IncomingMessage>)
        requires
            old(self).wf(),
        ensures
            final(self).wf(),
            final(self)@ == old(self)@.receive(
                peer_id@,
                match msg {
                    Some(request) => Some(request@),
                    None => None,
                },
            ),
    {
        match msg {
            Some(request) => {
                if let Err(refusal) = self.handle(peer_id, request) {
                    let details = refusal.details();
                    self.send(peer_id, OutgoingMessage::Error { details });
                }
            },
            None => {
                self.remove_peer(peer_id);
            },
        }
    }

    /// Hands out the oldest queued message. As long as none is queued, takes in what
    /// has arrived; with nothing queued and nothing left, there is no message.
    pub fn poll_next(&mut self, stream: &mut VecDeque<(String, Option<IncomingMessage>)>) -> (item:
        Option<(String, OutgoingMessage)>)
        requires
            old(self).wf(),
        ensures
            final(self).wf(),
            ({
                let (next, left, handed) = old(self)@.polled(arrivals_view(old(stream)@));
                &&& final(self)@ == next
                &&& arrivals_view(final(stream)@) == left
                &&& handed == (match item {
                    Some(first) => Some(item_view(first)),
                    None => None,
                })
            }),
    {
        let ghost expected = self@.polled(arrivals_view(stream@));
        loop
            invariant
                self.wf(),
                expected == old(self)@.polled(arrivals_view(old(stream)@)),
                self@.polled(arrivals_view(stream@)) == expected,
            decreases stream@.len(),
        {
            let item = self.next_item();
            if item.is_some() {
                return item;
            }
            let ghost waiting = stream@;
            match stream.pop_front() {
                Some((peer_id, msg)) => {
                    proof {
                        assert(arrivals_view(stream@) =~= arrivals_view(waiting).drop_first());
                        assert(arrivals_view(waiting).first() == arrival_view((peer_id, msg)));
                    }
                    self.receive(peer_id.as_str(), msg);
                },
                None => {
                    return None;
                },
            }
        }
    }

    /// Handles a request of a peer
    pub fn handle(&mut self, peer_id: &str, msg: IncomingMessage) -> (answer: Result<
        (),
        HandlerError,
    >)
        requires
            old(self).wf(),
        ensures
            final(self).wf(),
            (final(self)@, answer_view(answer)) == old(self)@.handle(peer_id@, msg@),
    {
        match msg {
            IncomingMessage::Register(message) => match message {
                RegisterMessage::Producer { meta } => self.register_producer(peer_id, meta),
                RegisterMessage::Consumer { meta } => self.register_consumer(peer_id, meta),
                RegisterMessage::Listener { meta } => self.register_listener(peer_id, meta),
            },
            IncomingMessage::Unregister(message) => {
                self.unregister(peer_id, message);
                Ok(())
            },
            IncomingMessage::StartSession(message) => {
                self.start_session(message.peer_id.as_str(), peer_id)
            },
            IncomingMessage::Peer(message) => {
                let (from_consumer, info) = match message {
                    PeerMessage::Consumer(info) => (true, info),
                    PeerMessage::Producer(info) => (false, info),
                };
                let other_peer_id = info.peer_id;
                match info.peer_message {
                    PeerMessageInner::Ice { candidate, sdp_m_line_index } => self.handle_ice(
                        from_consumer,
                        candidate,
                        sdp_m_line_index,
                        peer_id,
                        other_peer_id.as_str(),
                    ),
                    PeerMessageInner::Sdp(SdpMessage::Offer { sdp }) => self.handle_sdp_offer(
                        from_consumer,
                        sdp,
                        peer_id,
                        other_peer_id.as_str(),
                    ),
                    PeerMessageInner::Sdp(SdpMessage::Answer { sdp }) => self.handle_sdp_answer(
                        from_consumer,
                        sdp,
                        peer_id,
                        other_peer_id.as_str(),
                    ),
                }
            },
            IncomingMessage::List => {
                self.list_producers(peer_id)
            },
            IncomingMessage::EndSession(EndSessionMessage::Consumer { peer_id: other_peer_id }) => {
                self.end_session(true, peer_id, other_peer_id.as_str())
            },
            IncomingMessage::EndSession(EndSessionMessage::Producer { peer_id: other_peer_id }) => {
                self.end_session(false, peer_id, other_peer_id.as_str())
            },
        }
    }

    /// Takes a role from a peer at its own request, and tells those concerned
    pub fn unregister(&mut self, peer_id: &str, message: UnregisterMessage)
        requires
            old(self).wf(),
        ensures
            final(self).wf(),
            final(self)@ == old(self)@.unregister(peer_id@, message),
    {
        let ghost start = self@;
        let meta = self.meta_of(peer_id);
        let id = peer_id.to_owned();
        let (answer, tell_listeners) = match message {
            UnregisterMessage::Producer => {
                self.remove_producer_peer(peer_id);
                (UnregisteredMessage::Producer { peer_id: id, meta }, true)
            },
            UnregisterMessage::Consumer => {
                self.remove_consumer_peer(peer_id);
                (UnregisteredMessage::Consumer { peer_id: id, meta }, true)
            },
            UnregisterMessage::Listener => {
                self.remove_listener_peer(peer_id);
                (UnregisteredMessage::Listener { peer_id: id, meta }, false)
            },
        };
        let answer = OutgoingMessage::Unregistered(answer);
        self.send(peer_id, answer.clone());
        // Listeners are not told of other listeners
        if tell_listeners {
            let ghost before = *self;
            send_each(&mut self.items, &self.listeners, &answer);
            proof {
                assert(self@ =~= before@.send_each(before@.listeners, answer@));
                queue_keeps_wf(before@, self@);
            }
        }
    }

    /// Remove a listener
    pub fn remove_listener_peer(&mut self, peer_id: &str)
        requires
            old(self).wf(),
        ensures
            final(self).wf(),
            final(self)@ == old(self)@.remove_listener_peer(peer_id@),
    {
        proof {
            remove_listener_keeps_wf(self@, peer_id@);
        }
        let _ = self.listeners.remove(peer_id);
    }

    /// Remove a peer, this can cause sessions to be ended
    pub fn remove_peer(&mut self, peer_id: &str)
        requires
            old(self).wf(),
        ensures
            final(self).wf(),
            final(self)@ == old(self)@.remove_peer(peer_id@),
    {
        self.remove_listener_peer(peer_id);
        self.remove_producer_peer(peer_id);
        self.remove_consumer_peer(peer_id);
    }

    /// Remove a producer, which ends its sessions
    pub fn remove_producer_peer(&mut self, peer_id: &str)
        requires
            old(self).wf(),
        ensures
            final(self).wf(),
            final(self)@ == old(self)@.remove_producer_peer(peer_id@),
    {
        let ghost before = *self;
        proof {
            remove_producer_keeps_wf(self@, peer_id@);
        }
        match self.producers.remove(peer_id) {
            Some(consumers) => {
                let ghost gone = *self;
                // Relation between the consumer and producer will be removed
                // when handling EndSession
                let ended = OutgoingMessage::EndSession(
                    EndSessionMessage::Producer { peer_id: peer_id.to_owned() },
                );
                send_each(&mut self.items, &consumers, &ended);
                let removed = OutgoingMessage::ProducerRemoved {
                    peer_id: peer_id.to_owned(),
                    meta: match self.meta.get(peer_id) {
                        Some(meta) => meta.clone(),
                        None => None,
                    },
                };
                send_each(&mut self.items, &self.listeners, &removed);
                proof {
                    assert(self@.producers =~= before@.producers.remove(peer_id@));
                    assert(self@ =~= before@.remove_producer_peer(peer_id@));
                }
            },
            None => {
                proof {
                    assert(self@.producers =~= before@.producers);
                    assert(self@.producer_ids =~= before@.producer_ids);
                    assert(self@ =~= before@);
                }
            },
        }
    }

    /// Remove a consumer, which ends its sessions
    pub fn remove_consumer_peer(&mut self, peer_id: &str)
        requires
            old(self).wf(),
        ensures
            final(self).wf(),
            final(self)@ == old(self)@.remove_consumer_peer(peer_id@),
    {
        let ghost before = *self;
        proof {
            remove_consumer_keeps_wf(self@, peer_id@);
        }
        match self.consumers.remove(peer_id) {
            Some(producers) => {
                let mut at: usize = 0;
                assert(self@.producers =~= before@.producers_left_by(
                    peer_id@,
                    producers@.take(0),
                ));
                while at < producers.len()
                    invariant
                        at <= producers@.len(),
                        before.wf(),
                        producers@ == before@.consumers[peer_id@],
                        producers@.no_duplicates(),
                        self.producers.wf(),
                        self.consumers.wf(),
                        self.meta == before.meta,
                        self.listeners == before.listeners,
                        self.items == before.items,
                        self.producers.ids() == before.producers.ids(),
                        self@.consumers == before@.consumers.remove(peer_id@),
                        self@.producers == before@.producers_left_by(
                            peer_id@,
                            producers@.take(at as int),
                        ),
                        self.producers@.dom() == before.producers@.dom(),
                    decreases producers@.len() - at,
                {
                    let ghost middle = *self;
                    let producer_id = producers.get(at);
                    let ghost done = producers@.take(at as int);
                    proof {
                        assert(producers@.take(at + 1) =~= done.push(producer_id@));
                        assert(!done.contains(producer_id@));
                        lemma_with(done, producer_id@);
                        assert(with(done, producer_id@) == done.push(producer_id@));
                    }
                    // The producer can have been removed and we are finalizing the session
                    // afterward
                    if let Some(consumers) = self.producers.get_mut(producer_id.as_str()) {
                        proof {
                            assert(middle@.producers[producer_id@] == consumers@);
                            assert(before@.producers.contains_key(producer_id@));
                            assert(before@.producers[producer_id@].no_duplicates());
                        }
                        let _ = consumers.remove(peer_id);
                    }
                    proof {
                        let left = before@.producers_left_by(peer_id@, producers@.take(at + 1));
                        assert forall|id: Id| left.contains_key(id) implies #[trigger] left[id]
                            == self@.producers[id] by {
                            assert(with(done, producer_id@).contains(id) <==> done.contains(id)
                                || id == producer_id@);
                            assert(middle@.producers.contains_key(id));
                            assert(self.producers@.contains_key(id));
                            assert(self@.producers[id] == self.producers@[id]@);
                            assert(middle@.producers[id] == middle.producers@[id]@);
                            if id == producer_id@ {
                                assert(middle@.producers[id] == before@.producers[id]);
                                assert(self@.producers[id] == without(before@.producers[id], peer_id@));
                            } else {
                                assert(self.producers@[id] == middle.producers@[id]);
                            }
                        }
                        assert(self@.producers =~= left);
                    }
                    at = at + 1;
                }
                assert(producers@.take(at as int) =~= producers@);
                let ended = OutgoingMessage::EndSession(
                    EndSessionMessage::Consumer { peer_id: peer_id.to_owned() },
                );
                send_each(&mut self.items, &producers, &ended);
            },
            None => {
                assert(self@.consumers =~= before@.consumers);
            },
        }
        let _ = self.meta.remove(peer_id);
        assert(self@ =~= before@.remove_consumer_peer(peer_id@));
    }

    /// End a session between two peers
    pub fn end_session(
        &mut self,
        from_consumer: bool,
        peer_id: &str,
        other_peer_id: &str,
    ) -> (answer: Result<(), HandlerError>)
        requires
            old(self).wf(),
        ensures
            final(self).wf(),
            (final(self)@, answer_view(answer)) == old(self)@.end_session(
                from_consumer,
                peer_id@,
                other_peer_id@,
            ),
    {
        let ghost before = *self;
        proof {
            end_session_keeps_wf(self@, from_consumer, peer_id@, other_peer_id@);
        }
        if from_consumer {
            if let Some(producers) = self.consumers.get_mut(peer_id) {
                assert(producers@ == before@.consumers[peer_id@]);
                assert(before@.consumers.contains_key(peer_id@));
                if producers.remove(other_peer_id) {
                    // The producer can have been removed and we are finalizing the session
                    // afterward
                    if let Some(consumers) = self.producers.get_mut(other_peer_id) {
                        assert(consumers@ == before@.producers[other_peer_id@]);
                        assert(before@.producers.contains_key(other_peer_id@));
                        let _ = consumers.remove(peer_id);
                    }
                    let message = OutgoingMessage::EndSession(
                        EndSessionMessage::Consumer { peer_id: peer_id.to_owned() },
                    );
                    let item = (other_peer_id.to_owned(), message);
                    self.items.push_back(item);
                    proof {
                        let next = before@.end_session(from_consumer, peer_id@, other_peer_id@).0;
                        assert(self@.items =~= next.items);
                        assert(self@.producers =~= next.producers);
                        assert(self@.consumers =~= next.consumers);
                        assert(self@ =~= next);
                    }
                    return Ok(());
                }
            }
        } else if let Some(consumers) = self.producers.get_mut(peer_id) {
            assert(consumers@ == before@.producers[peer_id@]);
            assert(before@.producers.contains_key(peer_id@));
            if consumers.remove(other_peer_id) {
                assert(before@.producers[peer_id@].contains(other_peer_id@));
                let message = OutgoingMessage::EndSession(
                    EndSessionMessage::Producer { peer_id: peer_id.to_owned() },
                );
                let item = (other_peer_id.to_owned(), message);
                self.items.push_back(item);
                if let Some(producers) = self.consumers.get_mut(other_peer_id) {
                    assert(producers@ == before@.consumers[other_peer_id@]);
                    assert(before@.consumers.contains_key(other_peer_id@));
                    let _ = producers.remove(peer_id);
                }
                proof {
                    let next = before@.end_session(from_consumer, peer_id@, other_peer_id@).0;
                    assert(before@.consumers.contains_key(other_peer_id@));
                    assert(self@.items =~= next.items);
                    assert(self@.producers =~= next.producers);
                    assert(self@.consumers =~= next.consumers);
                    assert(self@ =~= next);
                }
                return Ok(());
            }
        }
        proof {
            assert(self@.producers =~= before@.producers);
            assert(self@.consumers =~= before@.consumers);
            assert(self@ =~= before@);
        }
        Err(
            HandlerError::NotInSession {
                from_consumer,
                peer_id: peer_id.to_owned(),
                other_peer_id: other_peer_id.to_owned(),
            },
        )
    }

    /// List producer peers
    pub fn list_producers(&mut self, peer_id: &str) -> (answer: Result<(), HandlerError>)
        requires
            old(self).wf(),
        ensures
            final(self).wf(),
            final(self)@ == old(self)@.list_producers(peer_id@),
            answer is Ok,
    {
        let mut producers: Vec<Peer> = Vec::new();
        let mut at: usize = 0;
        while at < self.producers.len()
            invariant
                at <= self@.producer_ids.len(),
                self.wf(),
                producers@.len() == at,
                forall|i: int|
                    0 <= i < at ==> #[trigger] producers@[i]@ == self@.producer_list()[i],
            decreases self@.producer_ids.len() - at,
        {
            let id = self.producers.id(at).clone();
            let meta = self.meta_of(id.as_str());
            producers.push(Peer::Producer { id, meta });
            at = at + 1;
        }
        assert(producers@.map_values(|p: Peer| p@) =~= self@.producer_list());
        self.send(peer_id, OutgoingMessage::List { producers });
        Ok(())
    }

    /// Whether a consumer counts a producer among those it has a session with
    fn consumer_has(&self, consumer_id: &str, producer_id: &str) -> (answer: bool)
        requires
            self.wf(),
        ensures
            answer == self@.consumer_has(consumer_id@, producer_id@),
    {
        match self.consumers.get(consumer_id) {
            Some(producers) => {
                assert(producers@ == self@.consumers[consumer_id@]);
                producers.contains(producer_id)
            },
            None => false,
        }
    }

    /// Whether a producer counts a consumer among those it has a session with
    fn producer_has(&self, producer_id: &str, consumer_id: &str) -> (answer: bool)
        requires
            self.wf(),
        ensures
            answer == self@.producer_has(producer_id@, consumer_id@),
    {
        match self.producers.get(producer_id) {
            Some(consumers) => {
                assert(consumers@ == self@.producers[producer_id@]);
                consumers.contains(consumer_id)
            },
            None => false,
        }
    }

    /// Queues a message from one peer for another.
    fn forward(&mut self, as_consumer: bool, from: &str, to: &str, peer_message: PeerMessageInner)
        requires
            old(self).wf(),
        ensures
            final(self).wf(),
            final(self)@ == old(self)@.forward(as_consumer, from@, to@, peer_message@),
    {
        let info = PeerMessageInfo { peer_id: from.to_owned(), peer_message };
        let message = if as_consumer {
            PeerMessage::Consumer(info)
        } else {
            PeerMessage::Producer(info)
        };
        self.send(to, OutgoingMessage::Peer(message));
    }

    /// Handle ICE candidate sent by a consumer to a producer
    pub fn handle_consumer_ice(
        &mut self,
        candidate: String,
        sdp_m_line_index: u32,
        consumer_id: &str,
        producer_id: &str,
    ) -> (answer: Result<(), HandlerError>)
        requires
            old(self).wf(),
        ensures
            final(self).wf(),
            (final(self)@, answer_view(answer)) == old(self)@.handle_ice(
                true,
                candidate@,
                sdp_m_line_index,
                consumer_id@,
                producer_id@,
            ),
    {
        if !self.consumer_has(consumer_id, producer_id) {
            return Err(
                HandlerError::IceOutsideSession {
                    from_consumer: true,
                    peer_id: consumer_id.to_owned(),
                    other_peer_id: producer_id.to_owned(),
                },
            );
        }
        self.forward(
            true,
            consumer_id,
            producer_id,
            PeerMessageInner::Ice { candidate, sdp_m_line_index },
        );
        Ok(())
    }

    /// Handle ICE candidate sent by a producer to a consumer
    pub fn handle_producer_ice(
        &mut self,
        candidate: String,
        sdp_m_line_index: u32,
        producer_id: &str,
        consumer_id: &str,
    ) -> (answer: Result<(), HandlerError>)
        requires
            old(self).wf(),
        ensures
            final(self).wf(),
            (final(self)@, answer_view(answer)) == old(self)@.handle_ice(
                false,
                candidate@,
                sdp_m_line_index,
                producer_id@,
                consumer_id@,
            ),
    {
        if !self.producer_has(producer_id, consumer_id) {
            return Err(
                HandlerError::IceOutsideSession {
                    from_consumer: false,
                    peer_id: producer_id.to_owned(),
                    other_peer_id: consumer_id.to_owned(),
                },
            );
        }
        self.forward(
            false,
            producer_id,
            consumer_id,
            PeerMessageInner::Ice { candidate, sdp_m_line_index },
        );
        Ok(())
    }

    /// Handle ICE candidate sent by one peer to another peer
    pub fn handle_ice(
        &mut self,
        from_consumer: bool,
        candidate: String,
        sdp_m_line_index: u32,
        peer_id: &str,
        other_peer_id: &str,
    ) -> (answer: Result<(), HandlerError>)
        requires
            old(self).wf(),
        ensures
            final(self).wf(),
            (final(self)@, answer_view(answer)) == old(self)@.handle_ice(
                from_consumer,
                candidate@,
                sdp_m_line_index,
                peer_id@,
                other_peer_id@,
            ),
    {
        if from_consumer {
            self.handle_consumer_ice(candidate, sdp_m_line_index, peer_id, other_peer_id)
        } else {
            self.handle_producer_ice(candidate, sdp_m_line_index, peer_id, other_peer_id)
        }
    }

    /// Handle SDP offered by one peer to another peer
    pub fn handle_sdp_offer(
        &mut self,
        from_consumer: bool,
        sdp: String,
        producer_id: &str,
        consumer_id: &str,
    ) -> (answer: Result<(), HandlerError>)
        requires
            old(self).wf(),
        ensures
            final(self).wf(),
            (final(self)@, answer_view(answer)) == old(self)@.handle_sdp_offer(
                from_consumer,
                sdp@,
                producer_id@,
                consumer_id@,
            ),
    {
        if !self.producers.contains(producer_id) {
            return Err(
                HandlerError::OfferNotFromProducer {
                    producer_id: producer_id.to_owned(),
                    consumer_id: consumer_id.to_owned(),
                },
            );
        }
        if !self.producer_has(producer_id, consumer_id) {
            return Err(
                HandlerError::OfferOutsideSession {
                    producer_id: producer_id.to_owned(),
                    consumer_id: consumer_id.to_owned(),
                },
            );
        }
        self.forward(
            from_consumer,
            producer_id,
            consumer_id,
            PeerMessageInner::Sdp(SdpMessage::Offer { sdp }),
        );
        Ok(())
    }

    /// Handle the SDP answer from one peer to another peer
    pub fn handle_sdp_answer(
        &mut self,
        from_consumer: bool,
        sdp: String,
        consumer_id: &str,
        producer_id: &str,
    ) -> (answer: Result<(), HandlerError>)
        requires
            old(self).wf(),
        ensures
            final(self).wf(),
            (final(self)@, answer_view(answer)) == old(self)@.handle_sdp_answer(
                from_consumer,
                sdp@,
                consumer_id@,
                producer_id@,
            ),
    {
        if !self.consumer_has(consumer_id, producer_id) {
            return Err(
                HandlerError::AnswerOutsideSession {
                    consumer_id: consumer_id.to_owned(),
                    producer_id: producer_id.to_owned(),
                },
            );
        }
        self.forward(
            from_consumer,
            consumer_id,
            producer_id,
            PeerMessageInner::Sdp(SdpMessage::Answer { sdp }),
        );
        Ok(())
    }

    /// Register peer as a producer
    pub fn register_producer(&mut self, peer_id: &str, meta: Option<Value>) -> (answer: Result<
        (),
        HandlerError,
    >)
        requires
            old(self).wf(),
        ensures
            final(self).wf(),
            (final(self)@, answer_view(answer)) == old(self)@.register_producer(peer_id@, meta),
    {
        if self.producers.contains(peer_id) {
            return Err(
                HandlerError::AlreadyRegistered {
                    peer_id: peer_id.to_owned(),
                    role: Role::Producer,
                },
            );
        }
        let ghost before = *self;
        proof {
            register_keeps_wf(self@, peer_id@, meta);
            assert(!self@.producer_ids.contains(peer_id@));
        }
        self.producers.insert(peer_id.to_owned(), PeerSet::new());
        let added = OutgoingMessage::ProducerAdded {
            peer_id: peer_id.to_owned(),
            meta: meta.clone(),
        };
        send_each(&mut self.items, &self.listeners, &added);
        let registered = OutgoingMessage::Registered(
            RegisteredMessage::Producer { peer_id: peer_id.to_owned(), meta: meta.clone() },
        );
        let item = (peer_id.to_owned(), registered);
        self.items.push_back(item);
        self.meta.insert(peer_id.to_owned(), meta);
        proof {
            let next = before@.register_producer(peer_id@, meta).0;
            assert(self@.items =~= next.items);
            assert(self@.producers =~= next.producers);
            assert(self@.meta =~= next.meta);
            assert(self@ =~= next);
        }
        Ok(())
    }

    /// Register peer as a consumer
    pub fn register_consumer(&mut self, peer_id: &str, meta: Option<Value>) -> (answer: Result<
        (),
        HandlerError,
    >)
        requires
            old(self).wf(),
        ensures
            final(self).wf(),
            (final(self)@, answer_view(answer)) == old(self)@.register_consumer(peer_id@, meta),
    {
        if self.consumers.contains(peer_id) {
            return Err(
                HandlerError::AlreadyRegistered {
                    peer_id: peer_id.to_owned(),
                    role: Role::Consumer,
                },
            );
        }
        let ghost before = *self;
        proof {
            register_keeps_wf(self@, peer_id@, meta);
        }
        self.consumers.insert(peer_id.to_owned(), PeerSet::new());
        let registered = OutgoingMessage::Registered(
            RegisteredMessage::Consumer { peer_id: peer_id.to_owned(), meta: meta.clone() },
        );
        let item = (peer_id.to_owned(), registered);
        self.items.push_back(item);
        self.meta.insert(peer_id.to_owned(), meta);
        proof {
            let next = before@.register_consumer(peer_id@, meta).0;
            assert(self@.items =~= next.items);
            assert(self@.consumers =~= next.consumers);
            assert(self@.meta =~= next.meta);
            assert(self@ =~= next);
        }
        Ok(())
    }

    /// Register peer as a listener
    pub fn register_listener(&mut self, peer_id: &str, meta: Option<Value>) -> (answer: Result<
        (),
        HandlerError,
    >)
        requires
            old(self).wf(),
        ensures
            final(self).wf(),
            (final(self)@, answer_view(answer)) == old(self)@.register_listener(peer_id@, meta),
    {
        let ghost before = *self;
        proof {
            register_keeps_wf(self@, peer_id@, meta);
        }
        if !self.listeners.insert(peer_id.to_owned()) {
            return Err(
                HandlerError::AlreadyRegistered {
                    peer_id: peer_id.to_owned(),
                    role: Role::Listener,
                },
            );
        }
        let registered = OutgoingMessage::Registered(
            RegisteredMessage::Listener { peer_id: peer_id.to_owned(), meta: meta.clone() },
        );
        let item = (peer_id.to_owned(), registered);
        self.items.push_back(item);
        self.meta.insert(peer_id.to_owned(), meta);
        proof {
            let next = before@.register_listener(peer_id@, meta).0;
            assert(self@.items =~= next.items);
            assert(self@.meta =~= next.meta);
            assert(self@ =~= next);
        }
        Ok(())
    }

    /// Start a session between two peers
    pub fn start_session(&mut self, producer_id: &str, consumer_id: &str) -> (answer: Result<
        (),
        HandlerError,
    >)
        requires
            old(self).wf(),
        ensures
            final(self).wf(),
            (final(self)@, answer_view(answer)) == old(self)@.start_session(
                producer_id@,
                consumer_id@,
            ),
    {
        if !self.consumers.contains(consumer_id) {
            return Err(
                HandlerError::NotRegistered {
                    peer_id: consumer_id.to_owned(),
                    role: Role::Consumer,
                },
            );
        }
        if self.consumer_has(consumer_id, producer_id) {
            return Err(
                HandlerError::AlreadyInSession {
                    consumer_id: consumer_id.to_owned(),
                    producer_id: producer_id.to_owned(),
                },
            );
        }
        if !self.producers.contains(producer_id) {
            return Err(
                HandlerError::NotRegistered {
                    peer_id: producer_id.to_owned(),
                    role: Role::Producer,
                },
            );
        }
        let ghost before = *self;
        proof {
            start_session_keeps_wf(self@, producer_id@, consumer_id@);
            assert(!before@.producers[producer_id@].contains(consumer_id@));
        }
        if let Some(producers) = self.consumers.get_mut(consumer_id) {
            assert(producers@ == before@.consumers[consumer_id@]);
            let _ = producers.insert(producer_id.to_owned());
        }
        if let Some(consumers) = self.producers.get_mut(producer_id) {
            assert(consumers@ == before@.producers[producer_id@]);
            let _ = consumers.insert(consumer_id.to_owned());
        }
        let message = OutgoingMessage::StartSession { peer_id: consumer_id.to_owned() };
        let item = (producer_id.to_owned(), message);
        self.items.push_back(item);
        proof {
            let next = before@.start_session(producer_id@, consumer_id@).0;
            assert(self@.items =~= next.items);
            assert(self@.producers =~= next.producers);
            assert(self@.consumers =~= next.consumers);
            assert(self@ =~= next);
        }
        Ok(())
    }
}

/// Queued messages, arrivals and answers are looked at as they are.
pub proof fn items_and_arrivals_are_kept(
    item: (String, OutgoingMessage),
    arrivals: Seq<(String, Option<IncomingMessage>)>,
    refusal: HandlerError,
)
    ensures
        item_view(item).0 == item.0@,
        item_view(item).1 == item.1@,
        arrivals_view(arrivals).len() == arrivals.len(),
        forall|i: int|
            0 <= i < arrivals.len() ==> {
                &&& (#[trigger] arrivals_view(arrivals)[i]).0 == arrivals[i].0@
                &&& arrivals[i].1 is None ==> arrivals_view(arrivals)[i].1 is None
                &&& arrivals[i].1 matches Some(request) ==> arrivals_view(arrivals)[i].1 == Some(
                    request@,
                )
            },
        answer_view(Ok(())) is Ok,
        answer_view(Err(refusal)) == Err::<(), HandlerErrorView>(refusal@),
{
}

} // verus!
