//! The state of the signalling handler, and what each request does to it.
use super::error::{HandlerErrorView, Role};
use crate::peers::{without, Id};
use crate::protocol::{
    EndSessionMessageView, IncomingMessageView, OutgoingMessageView, PeerMessageInfoView,
    PeerMessageInnerView, PeerMessageView, PeerView, RegisterMessage, RegisteredMessageView,
    SdpMessageView, UnregisterMessage, UnregisteredMessageView,
};
use serde_json::Value;
use vstd::prelude::*;

verus! {

/// A message and the peer it is for.
pub type Item = (Id, OutgoingMessageView);

/// Who is registered, who is in a session with whom, and what waits to be sent.
#[verifier::ext_equal]
pub struct HandlerView {
    /// Messages not yet handed out, the oldest first
    pub items: Seq<Item>,
    /// The producers, in the order in which they registered
    pub producer_ids: Seq<Id>,
    /// The consumers in a session with each producer
    pub producers: Map<Id, Seq<Id>>,
    /// The producers each consumer has a session with
    pub consumers: Map<Id, Seq<Id>>,
    /// The listeners, in the order in which they registered
    pub listeners: Seq<Id>,
    /// What peers told about themselves when they registered
    pub meta: Map<Id, Option<Value>>,
}

/// The same message to each of some peers, in their order.
pub open spec fn to_each(peers: Seq<Id>, message: OutgoingMessageView) -> Seq<Item> {
    peers.map_values(|id: Id| (id, message))
}

/// What arrives from a peer: a request, or with `None` the news that it is gone.
pub type Arrival = (Id, Option<IncomingMessageView>);

/// The outcome of a request: the state after it, and why it was refused, if it was.
pub type Outcome = (HandlerView, Result<(), HandlerErrorView>);

impl HandlerView {
    /// Nobody registered, nothing to send.
    pub open spec fn empty() -> HandlerView {
        HandlerView {
            items: Seq::empty(),
            producer_ids: Seq::empty(),
            producers: Map::empty(),
            consumers: Map::empty(),
            listeners: Seq::empty(),
            meta: Map::empty(),
        }
    }

    /// Each consumer of a producer is registered, and knows of the session.
    pub open spec fn sessions_known_to_consumers(self) -> bool {
        forall|producer: Id, consumer: Id|
            #![trigger self.producers[producer].contains(consumer)]
            self.producers.contains_key(producer) && self.producers[producer].contains(consumer) ==> {
                &&& self.consumers.contains_key(consumer)
                &&& self.consumers[consumer].contains(producer)
            }
    }

    /// What holds of every state that requests can lead to.
    pub open spec fn wf(self) -> bool {
        &&& self.producer_ids.no_duplicates()
        &&& forall|id: Id| #[trigger]
            self.producer_ids.contains(id) <==> self.producers.contains_key(id)
        &&& self.listeners.no_duplicates()
        &&& forall|id: Id| #[trigger]
            self.producers.contains_key(id) ==> self.producers[id].no_duplicates()
        &&& forall|id: Id| #[trigger]
            self.consumers.contains_key(id) ==> self.consumers[id].no_duplicates()
        &&& self.sessions_known_to_consumers()
    }

    /// What a peer told about itself, if anything is kept of it.
    pub open spec fn meta_of(self, id: Id) -> Option<Value> {
        if self.meta.contains_key(id) {
            self.meta[id]
        } else {
            None
        }
    }

    /// Whether a producer counts a consumer among those it has a session with.
    pub open spec fn producer_has(self, producer: Id, consumer: Id) -> bool {
        self.producers.contains_key(producer) && self.producers[producer].contains(consumer)
    }

    /// Whether a consumer counts a producer among those it has a session with.
    pub open spec fn consumer_has(self, consumer: Id, producer: Id) -> bool {
        self.consumers.contains_key(consumer) && self.consumers[consumer].contains(producer)
    }

    /// The state with a message queued.
    pub open spec fn send(self, to: Id, message: OutgoingMessageView) -> HandlerView {
        HandlerView { items: self.items.push((to, message)), ..self }
    }

    /// The state with the same message queued for each of some peers.
    pub open spec fn send_each(self, to: Seq<Id>, message: OutgoingMessageView) -> HandlerView {
        HandlerView { items: self.items + to_each(to, message), ..self }
    }

    /// A peer registers as a producer: the listeners hear of it, then the peer.
    pub open spec fn register_producer(self, id: Id, meta: Option<Value>) -> Outcome {
        if self.producers.contains_key(id) {
            (self, Err(HandlerErrorView::AlreadyRegistered { peer_id: id, role: Role::Producer }))
        } else {
            let next = HandlerView {
                producer_ids: self.producer_ids.push(id),
                producers: self.producers.insert(id, Seq::empty()),
                meta: self.meta.insert(id, meta),
                ..self
            };
            (
                next.send_each(
                    self.listeners,
                    OutgoingMessageView::ProducerAdded { peer_id: id, meta },
                ).send(
                    id,
                    OutgoingMessageView::Registered(
                        RegisteredMessageView::Producer { peer_id: id, meta },
                    ),
                ),
                Ok(()),
            )
        }
    }

    /// A peer registers as a consumer.
    pub open spec fn register_consumer(self, id: Id, meta: Option<Value>) -> Outcome {
        if self.consumers.contains_key(id) {
            (self, Err(HandlerErrorView::AlreadyRegistered { peer_id: id, role: Role::Consumer }))
        } else {
            let next = HandlerView {
                consumers: self.consumers.insert(id, Seq::empty()),
                meta: self.meta.insert(id, meta),
                ..self
            };
            (
                next.send(
                    id,
                    OutgoingMessageView::Registered(
                        RegisteredMessageView::Consumer { peer_id: id, meta },
                    ),
                ),
                Ok(()),
            )
        }
    }

    /// A peer registers as a listener.
    pub open spec fn register_listener(self, id: Id, meta: Option<Value>) -> Outcome {
        if self.listeners.contains(id) {
            (self, Err(HandlerErrorView::AlreadyRegistered { peer_id: id, role: Role::Listener }))
        } else {
            let next = HandlerView {
                listeners: self.listeners.push(id),
                meta: self.meta.insert(id, meta),
                ..self
            };
            (
                next.send(
                    id,
                    OutgoingMessageView::Registered(
                        RegisteredMessageView::Listener { peer_id: id, meta },
                    ),
                ),
                Ok(()),
            )
        }
    }

    /// A listener is taken out.
    pub open spec fn remove_listener_peer(self, id: Id) -> HandlerView {
        HandlerView { listeners: without(self.listeners, id), ..self }
    }

    /// A producer is taken out: its consumers are told that the session ended, the
    /// listeners that the producer is gone. The consumers keep their side of the
    /// session until they end it themselves.
    pub open spec fn remove_producer_peer(self, id: Id) -> HandlerView {
        if self.producers.contains_key(id) {
            let next = HandlerView {
                producer_ids: without(self.producer_ids, id),
                producers: self.producers.remove(id),
                ..self
            };
            next.send_each(
                self.producers[id],
                OutgoingMessageView::EndSession(EndSessionMessageView::Producer { peer_id: id }),
            ).send_each(
                self.listeners,
                OutgoingMessageView::ProducerRemoved { peer_id: id, meta: self.meta_of(id) },
            )
        } else {
            self
        }
    }

    /// The producers' side of the sessions once `consumer` has left those of `producers`.
    pub open spec fn producers_left_by(self, consumer: Id, producers: Seq<Id>) -> Map<Id, Seq<Id>> {
        Map::new(
            |id: Id| self.producers.contains_key(id),
            |id: Id|
                if producers.contains(id) {
                    without(self.producers[id], consumer)
                } else {
                    self.producers[id]
                },
        )
    }

    /// A consumer is taken out, with its sessions, of which the producers are told.
    /// What the peer told about itself is dropped, consumer or not.
    pub open spec fn remove_consumer_peer(self, id: Id) -> HandlerView {
        let next = HandlerView { meta: self.meta.remove(id), ..self };
        if self.consumers.contains_key(id) {
            let producers = self.consumers[id];
            HandlerView {
                producers: self.producers_left_by(id, producers),
                consumers: self.consumers.remove(id),
                ..next
            }.send_each(
                producers,
                OutgoingMessageView::EndSession(EndSessionMessageView::Consumer { peer_id: id }),
            )
        } else {
            next
        }
    }

    /// A peer is gone: it loses every role.
    pub open spec fn remove_peer(self, id: Id) -> HandlerView {
        self.remove_listener_peer(id).remove_producer_peer(id).remove_consumer_peer(id)
    }

    /// A peer gives up a role. It is told so, and for a producer or a consumer
    /// the listeners are told too, whatever the peer was registered as.
    pub open spec fn unregister(self, id: Id, role: UnregisterMessage) -> HandlerView {
        let meta = self.meta_of(id);
        match role {
            UnregisterMessage::Producer => {
                let next = self.remove_producer_peer(id);
                let answer = OutgoingMessageView::Unregistered(
                    UnregisteredMessageView::Producer { peer_id: id, meta },
                );
                next.send(id, answer).send_each(next.listeners, answer)
            },
            UnregisterMessage::Consumer => {
                let next = self.remove_consumer_peer(id);
                let answer = OutgoingMessageView::Unregistered(
                    UnregisteredMessageView::Consumer { peer_id: id, meta },
                );
                next.send(id, answer).send_each(next.listeners, answer)
            },
            UnregisterMessage::Listener => {
                self.remove_listener_peer(id).send(
                    id,
                    OutgoingMessageView::Unregistered(
                        UnregisteredMessageView::Listener { peer_id: id, meta },
                    ),
                )
            },
        }
    }

    /// A consumer starts a session with a producer, which is told to make an offer.
    pub open spec fn start_session(self, producer: Id, consumer: Id) -> Outcome {
        if !self.consumers.contains_key(consumer) {
            (self, Err(HandlerErrorView::NotRegistered { peer_id: consumer, role: Role::Consumer }))
        } else if self.consumers[consumer].contains(producer) {
            (
                self,
                Err(
                    HandlerErrorView::AlreadyInSession {
                        consumer_id: consumer,
                        producer_id: producer,
                    },
                ),
            )
        } else if !self.producers.contains_key(producer) {
            (self, Err(HandlerErrorView::NotRegistered { peer_id: producer, role: Role::Producer }))
        } else {
            let next = HandlerView {
                producers: self.producers.insert(producer, self.producers[producer].push(consumer)),
                consumers: self.consumers.insert(consumer, self.consumers[consumer].push(producer)),
                ..self
            };
            (
                next.send(producer, OutgoingMessageView::StartSession { peer_id: consumer }),
                Ok(()),
            )
        }
    }

    /// A peer ends its session with another, which is told.
    pub open spec fn end_session(self, from_consumer: bool, id: Id, other: Id) -> Outcome {
        if from_consumer && self.consumer_has(id, other) {
            let next = HandlerView {
                producers: if self.producers.contains_key(other) {
                    self.producers.insert(other, without(self.producers[other], id))
                } else {
                    self.producers
                },
                consumers: self.consumers.insert(id, without(self.consumers[id], other)),
                ..self
            };
            (
                next.send(
                    other,
                    OutgoingMessageView::EndSession(EndSessionMessageView::Consumer { peer_id: id }),
                ),
                Ok(()),
            )
        } else if !from_consumer && self.producer_has(id, other) {
            let next = HandlerView {
                producers: self.producers.insert(id, without(self.producers[id], other)),
                consumers: self.consumers.insert(other, without(self.consumers[other], id)),
                ..self
            };
            (
                next.send(
                    other,
                    OutgoingMessageView::EndSession(EndSessionMessageView::Producer { peer_id: id }),
                ),
                Ok(()),
            )
        } else {
            (
                self,
                Err(
                    HandlerErrorView::NotInSession {
                        from_consumer,
                        peer_id: id,
                        other_peer_id: other,
                    },
                ),
            )
        }
    }

    /// The registered producers, as a list shows them.
    pub open spec fn producer_list(self) -> Seq<PeerView> {
        self.producer_ids.map_values(
            |id: Id| PeerView::Producer { id, meta: self.meta_of(id) },
        )
    }

    /// A peer asks for the producers.
    pub open spec fn list_producers(self, id: Id) -> HandlerView {
        self.send(id, OutgoingMessageView::List { producers: self.producer_list() })
    }

    /// The state with a message from one peer queued for another.
    pub open spec fn forward(
        self,
        as_consumer: bool,
        from: Id,
        to: Id,
        message: PeerMessageInnerView,
    ) -> HandlerView {
        let info = PeerMessageInfoView { peer_id: from, peer_message: message };
        self.send(
            to,
            OutgoingMessageView::Peer(
                if as_consumer {
                    PeerMessageView::Consumer(info)
                } else {
                    PeerMessageView::Producer(info)
                },
            ),
        )
    }

    /// An ICE candidate goes to the other peer of a session.
    pub open spec fn handle_ice(
        self,
        from_consumer: bool,
        candidate: Seq<char>,
        sdp_m_line_index: u32,
        id: Id,
        other: Id,
    ) -> Outcome {
        let in_session = if from_consumer {
            self.consumer_has(id, other)
        } else {
            self.producer_has(id, other)
        };
        if in_session {
            (
                self.forward(
                    from_consumer,
                    id,
                    other,
                    PeerMessageInnerView::Ice { candidate, sdp_m_line_index },
                ),
                Ok(()),
            )
        } else {
            (
                self,
                Err(
                    HandlerErrorView::IceOutsideSession {
                        from_consumer,
                        peer_id: id,
                        other_peer_id: other,
                    },
                ),
            )
        }
    }

    /// An offer goes from the producer of a session to its consumer. How the
    /// sender labelled itself only labels the forwarded message.
    pub open spec fn handle_sdp_offer(
        self,
        from_consumer: bool,
        sdp: Seq<char>,
        producer: Id,
        consumer: Id,
    ) -> Outcome {
        if !self.producers.contains_key(producer) {
            (
                self,
                Err(
                    HandlerErrorView::OfferNotFromProducer {
                        producer_id: producer,
                        consumer_id: consumer,
                    },
                ),
            )
        } else if !self.producers[producer].contains(consumer) {
            (
                self,
                Err(
                    HandlerErrorView::OfferOutsideSession {
                        producer_id: producer,
                        consumer_id: consumer,
                    },
                ),
            )
        } else {
            (
                self.forward(
                    from_consumer,
                    producer,
                    consumer,
                    PeerMessageInnerView::Sdp(SdpMessageView::Offer { sdp }),
                ),
                Ok(()),
            )
        }
    }

    /// An answer goes from the consumer of a session to its producer.
    pub open spec fn handle_sdp_answer(
        self,
        from_consumer: bool,
        sdp: Seq<char>,
        consumer: Id,
        producer: Id,
    ) -> Outcome {
        if self.consumer_has(consumer, producer) {
            (
                self.forward(
                    from_consumer,
                    consumer,
                    producer,
                    PeerMessageInnerView::Sdp(SdpMessageView::Answer { sdp }),
                ),
                Ok(()),
            )
        } else {
            (
                self,
                Err(
                    HandlerErrorView::AnswerOutsideSession {
                        consumer_id: consumer,
                        producer_id: producer,
                    },
                ),
            )
        }
    }

    /// A message for another peer.
    pub open spec fn handle_peer(self, id: Id, message: PeerMessageView) -> Outcome {
        let (from_consumer, info) = match message {
            PeerMessageView::Consumer(info) => (true, info),
            PeerMessageView::Producer(info) => (false, info),
        };
        match info.peer_message {
            PeerMessageInnerView::Ice { candidate, sdp_m_line_index } => self.handle_ice(
                from_consumer,
                candidate,
                sdp_m_line_index,
                id,
                info.peer_id,
            ),
            PeerMessageInnerView::Sdp(SdpMessageView::Offer { sdp }) => self.handle_sdp_offer(
                from_consumer,
                sdp,
                id,
                info.peer_id,
            ),
            PeerMessageInnerView::Sdp(SdpMessageView::Answer { sdp }) => self.handle_sdp_answer(
                from_consumer,
                sdp,
                id,
                info.peer_id,
            ),
        }
    }

    /// What a request of a peer does.
    pub open spec fn handle(self, id: Id, message: IncomingMessageView) -> Outcome {
        match message {
            IncomingMessageView::Register(RegisterMessage::Producer { meta }) => {
                self.register_producer(id, meta)
            },
            IncomingMessageView::Register(RegisterMessage::Consumer { meta }) => {
                self.register_consumer(id, meta)
            },
            IncomingMessageView::Register(RegisterMessage::Listener { meta }) => {
                self.register_listener(id, meta)
            },
            IncomingMessageView::Unregister(role) => (self.unregister(id, role), Ok(())),
            IncomingMessageView::StartSession { peer_id } => self.start_session(peer_id, id),
            IncomingMessageView::Peer(peer_message) => self.handle_peer(id, peer_message),
            IncomingMessageView::List => (self.list_producers(id), Ok(())),
            IncomingMessageView::EndSession(EndSessionMessageView::Consumer { peer_id }) => {
                self.end_session(true, id, peer_id)
            },
            IncomingMessageView::EndSession(EndSessionMessageView::Producer { peer_id }) => {
                self.end_session(false, id, peer_id)
            },
        }
    }

    /// What an arrival from a peer does: a request, or with `None` its departure.
    /// A refused request is answered with the reason.
    pub open spec fn receive(self, id: Id, message: Option<IncomingMessageView>) -> HandlerView {
        match message {
            Some(request) => {
                let (next, answer) = self.handle(id, request);
                match answer {
                    Ok(_) => next,
                    Err(refusal) => next.send(
                        id,
                        OutgoingMessageView::Error { details: refusal.details() },
                    ),
                }
            },
            None => self.remove_peer(id),
        }
    }

    /// What comes of asking for a message while arrivals wait: the oldest that is
    /// queued. As long as none is, arrivals are taken in.
    pub open spec fn polled(self, arrivals: Seq<Arrival>) -> (
        HandlerView,
        Seq<Arrival>,
        Option<Item>,
    )
        decreases arrivals.len(),
    {
        if self.items.len() > 0 {
            (
                HandlerView { items: self.items.drop_first(), ..self },
                arrivals,
                Some(self.items.first()),
            )
        } else if arrivals.len() == 0 {
            (self, arrivals, None)
        } else {
            self.receive(arrivals.first().0, arrivals.first().1).polled(arrivals.drop_first())
        }
    }

    /// What several arrivals do, one after another.
    pub open spec fn receive_all(self, arrivals: Seq<Arrival>) -> HandlerView
        decreases arrivals.len(),
    {
        if arrivals.len() == 0 {
            self
        } else {
            self.receive(arrivals.first().0, arrivals.first().1).receive_all(arrivals.drop_first())
        }
    }

    /// All that is handed out if messages are asked for until there are none.
    pub open spec fn drained(self, arrivals: Seq<Arrival>) -> Seq<Item>
        decreases arrivals.len(), self.items.len(),
    {
        if self.items.len() > 0 {
            seq![self.items.first()] + HandlerView {
                items: self.items.drop_first(),
                ..self
            }.drained(arrivals)
        } else if arrivals.len() == 0 {
            Seq::empty()
        } else {
            self.receive(arrivals.first().0, arrivals.first().1).drained(arrivals.drop_first())
        }
    }
}

} // verus!
