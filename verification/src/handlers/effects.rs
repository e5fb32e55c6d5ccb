//! What each request comes to: who is registered, who is in a session with whom,
//! and what is sent to whom.
use super::error::{HandlerErrorView, Role};
use super::model::{to_each, Arrival, HandlerView};
use crate::peers::{lemma_with, lemma_without, with, without, Id};
use crate::protocol::{
    EndSessionMessageView, IncomingMessageView, OutgoingMessageView, PeerMessageInfoView,
    PeerMessageInnerView, PeerMessageView, PeerView, RegisterMessage, RegisteredMessageView,
    SdpMessageView, UnregisterMessage, UnregisteredMessageView,
};
use serde_json::Value;
use vstd::prelude::*;

verus! {

/// The same message to each of some peers is one message to each, in their order.
pub proof fn each_gets_the_message(peers: Seq<Id>, message: OutgoingMessageView)
    ensures
        to_each(peers, message).len() == peers.len(),
        forall|i: int|
            0 <= i < peers.len() ==> #[trigger] to_each(peers, message)[i] == (peers[i], message),
{
}

/// At the start nobody is registered, nobody is in a session, nothing is to be sent.
pub proof fn handlers_start_empty(id: Id)
    ensures
        ({
            let start = HandlerView::empty();
            &&& start.items.len() == 0
            &&& !start.producers.contains_key(id)
            &&& !start.consumers.contains_key(id)
            &&& !start.listeners.contains(id)
            &&& !start.meta.contains_key(id)
            &&& start.producer_ids.len() == 0
            &&& start.wf()
        }),
{
}

/// Every request is handled as what it is, for the peer that makes it.
pub proof fn requests_are_told_apart(
    state: HandlerView,
    id: Id,
    other: Id,
    meta: Option<Value>,
    role: UnregisterMessage,
    text: Seq<char>,
    line: u32,
)
    ensures
        state.handle(id, IncomingMessageView::Register(RegisterMessage::Producer { meta }))
            == state.register_producer(id, meta),
        state.handle(id, IncomingMessageView::Register(RegisterMessage::Consumer { meta }))
            == state.register_consumer(id, meta),
        state.handle(id, IncomingMessageView::Register(RegisterMessage::Listener { meta }))
            == state.register_listener(id, meta),
        state.handle(id, IncomingMessageView::Unregister(role)) == (
            state.unregister(id, role),
            Ok::<(), HandlerErrorView>(()),
        ),
        state.handle(id, IncomingMessageView::StartSession { peer_id: other })
            == state.start_session(other, id),
        state.handle(
            id,
            IncomingMessageView::EndSession(EndSessionMessageView::Consumer { peer_id: other }),
        ) == state.end_session(true, id, other),
        state.handle(
            id,
            IncomingMessageView::EndSession(EndSessionMessageView::Producer { peer_id: other }),
        ) == state.end_session(false, id, other),
        state.handle(id, IncomingMessageView::List) == (
            state.list_producers(id),
            Ok::<(), HandlerErrorView>(()),
        ),
        ({
            let as_consumer = |peer_message: PeerMessageInnerView|
                IncomingMessageView::Peer(
                    PeerMessageView::Consumer(PeerMessageInfoView { peer_id: other, peer_message }),
                );
            let as_producer = |peer_message: PeerMessageInnerView|
                IncomingMessageView::Peer(
                    PeerMessageView::Producer(PeerMessageInfoView { peer_id: other, peer_message }),
                );
            let ice = PeerMessageInnerView::Ice { candidate: text, sdp_m_line_index: line };
            let offer = PeerMessageInnerView::Sdp(SdpMessageView::Offer { sdp: text });
            let answer = PeerMessageInnerView::Sdp(SdpMessageView::Answer { sdp: text });
            &&& state.handle(id, as_consumer(ice)) == state.handle_ice(true, text, line, id, other)
            &&& state.handle(id, as_producer(ice)) == state.handle_ice(false, text, line, id, other)
            &&& state.handle(id, as_consumer(offer)) == state.handle_sdp_offer(
                true,
                text,
                id,
                other,
            )
            &&& state.handle(id, as_producer(offer)) == state.handle_sdp_offer(
                false,
                text,
                id,
                other,
            )
            &&& state.handle(id, as_consumer(answer)) == state.handle_sdp_answer(
                true,
                text,
                id,
                other,
            )
            &&& state.handle(id, as_producer(answer)) == state.handle_sdp_answer(
                false,
                text,
                id,
                other,
            )
        }),
{
}

/// What arrives is a request, which takes effect or is refused, or the news that the
/// peer is gone. The sender of a refused request, and nobody else, gets one message
/// more, with the reason.
pub proof fn arrivals_take_effect_or_are_refused(
    state: HandlerView,
    id: Id,
    message: IncomingMessageView,
)
    ensures
        state.receive(id, None) == state.remove_peer(id),
        match state.handle(id, message).1 {
            Ok(_) => state.receive(id, Some(message)) == state.handle(id, message).0,
            Err(refusal) => {
                let next = state.receive(id, Some(message));
                &&& next.items == state.items.push(
                    (id, OutgoingMessageView::Error { details: refusal.details() }),
                )
                &&& next.producer_ids == state.producer_ids
                &&& next.producers == state.producers
                &&& next.consumers == state.consumers
                &&& next.listeners == state.listeners
                &&& next.meta == state.meta
            },
        },
{
}

/// A consumer that is registered can start a session with every producer that is
/// registered, unless it has one with it already. Whatever other sessions there are,
/// that adds this session, for both sides, and one message: the producer is told to
/// make an offer to the consumer. Everything else stays. A request that is refused
/// changes nothing.
pub proof fn sessions_are_started(state: HandlerView, producer: Id, consumer: Id)
    requires
        state.wf(),
    ensures
        ({
            let (next, answer) = state.start_session(producer, consumer);
            let known = state.consumers.contains_key(consumer);
            let together = state.consumers[consumer].contains(producer);
            let present = state.producers.contains_key(producer);
            &&& answer is Ok <==> known && !together && present
            &&& answer is Err ==> next == state
            &&& !known ==> answer == Err::<(), _>(
                HandlerErrorView::NotRegistered { peer_id: consumer, role: Role::Consumer },
            )
            &&& known && together ==> answer == Err::<(), _>(
                HandlerErrorView::AlreadyInSession {
                    consumer_id: consumer,
                    producer_id: producer,
                },
            )
            &&& known && !together && !present ==> answer == Err::<(), _>(
                HandlerErrorView::NotRegistered { peer_id: producer, role: Role::Producer },
            )
            &&& answer is Ok ==> {
                &&& next.items == state.items.push(
                    (producer, OutgoingMessageView::StartSession { peer_id: consumer }),
                )
                &&& next.producers.dom() == state.producers.dom()
                &&& next.consumers.dom() == state.consumers.dom()
                &&& forall|p: Id, c: Id|
                    #![trigger next.producers[p].contains(c)]
                    state.producers.contains_key(p) ==> (next.producers[p].contains(c)
                        <==> state.producers[p].contains(c) || (p == producer && c == consumer))
                &&& forall|c: Id, p: Id|
                    #![trigger next.consumers[c].contains(p)]
                    state.consumers.contains_key(c) ==> (next.consumers[c].contains(p)
                        <==> state.consumers[c].contains(p) || (p == producer && c == consumer))
                &&& next.producers[producer].len() == state.producers[producer].len() + 1
                &&& next.consumers[consumer].len() == state.consumers[consumer].len() + 1
                &&& next.producer_ids == state.producer_ids
                &&& next.listeners == state.listeners
                &&& next.meta == state.meta
            }
        }),
{
    let (next, answer) = state.start_session(producer, consumer);
    if answer is Ok {
        assert(!state.producers[producer].contains(consumer));
        lemma_with(state.producers[producer], consumer);
        lemma_with(state.consumers[consumer], producer);
        assert(next.producers[producer] == with(state.producers[producer], consumer));
        assert(next.consumers[consumer] == with(state.consumers[consumer], producer));
        assert(next.producers.dom() =~= state.producers.dom());
        assert(next.consumers.dom() =~= state.consumers.dom());
        assert forall|p: Id, c: Id|
            #![trigger next.producers[p].contains(c)]
            state.producers.contains_key(p) implies (next.producers[p].contains(c)
            <==> state.producers[p].contains(c) || (p == producer && c == consumer)) by {
            if p == producer {
                assert(with(state.producers[producer], consumer).contains(c)
                    <==> state.producers[producer].contains(c) || c == consumer);
            }
        }
        assert forall|c: Id, p: Id|
            #![trigger next.consumers[c].contains(p)]
            state.consumers.contains_key(c) implies (next.consumers[c].contains(p)
            <==> state.consumers[c].contains(p) || (p == producer && c == consumer)) by {
            if c == consumer {
                assert(with(state.consumers[consumer], producer).contains(p)
                    <==> state.consumers[consumer].contains(p) || p == producer);
            }
        }
    }
}

/// What is started once can be started with others too: sessions of one consumer do
/// not stand in each other's way, and each producer gets its own message.
pub proof fn sessions_are_independent(state: HandlerView, first: Id, second: Id, consumer: Id)
    requires
        state.wf(),
        first != second,
        state.start_session(first, consumer).1 is Ok,
        state.start_session(second, consumer).1 is Ok,
    ensures
        ({
            let (next, answer) = state.start_session(first, consumer).0.start_session(
                second,
                consumer,
            );
            &&& answer is Ok
            &&& next.items == state.items + seq![
                (first, OutgoingMessageView::StartSession { peer_id: consumer }),
                (second, OutgoingMessageView::StartSession { peer_id: consumer }),
            ]
            &&& next.producers[first].contains(consumer)
            &&& next.producers[second].contains(consumer)
            &&& next.consumers[consumer].contains(first)
            &&& next.consumers[consumer].contains(second)
        }),
{
    super::wellformed::start_session_keeps_wf(state, first, consumer);
    let middle = state.start_session(first, consumer).0;
    sessions_are_started(state, first, consumer);
    sessions_are_started(state, second, consumer);
    assert(!middle.consumers[consumer].contains(second));
    assert(middle.consumers.dom().contains(consumer));
    assert(middle.producers.dom().contains(second));
    sessions_are_started(middle, second, consumer);
    let next = middle.start_session(second, consumer).0;
    assert(middle.producers[first].contains(consumer));
    assert(middle.consumers[consumer].contains(first));
    assert(next.producers[first].contains(consumer));
    assert(next.producers[second].contains(consumer));
    assert(next.consumers[consumer].contains(first));
    assert(next.consumers[consumer].contains(second));
    assert(next.items =~= state.items + seq![
        (first, OutgoingMessageView::StartSession { peer_id: consumer }),
        (second, OutgoingMessageView::StartSession { peer_id: consumer }),
    ]);
}

/// Either side of a session can end it. That ends this session and no other, for both
/// sides, and the other side gets one message, which names the side that ended it. A
/// consumer can do so when the producer is gone. One who counts no such session is
/// refused, and nothing changes.
pub proof fn sessions_are_ended(state: HandlerView, from_consumer: bool, id: Id, other: Id)
    requires
        state.wf(),
    ensures
        ({
            let (next, answer) = state.end_session(from_consumer, id, other);
            let (producer, consumer) = if from_consumer {
                (other, id)
            } else {
                (id, other)
            };
            let told = if from_consumer {
                EndSessionMessageView::Consumer { peer_id: id }
            } else {
                EndSessionMessageView::Producer { peer_id: id }
            };
            &&& from_consumer ==> (answer is Ok <==> state.consumers.contains_key(id)
                && state.consumers[id].contains(other))
            &&& !from_consumer ==> (answer is Ok <==> state.producers.contains_key(id)
                && state.producers[id].contains(other))
            &&& answer is Err ==> next == state && answer == Err::<(), _>(
                HandlerErrorView::NotInSession {
                    from_consumer,
                    peer_id: id,
                    other_peer_id: other,
                },
            )
            &&& answer is Ok ==> {
                &&& next.items == state.items.push((other, OutgoingMessageView::EndSession(told)))
                &&& next.producers.dom() == state.producers.dom()
                &&& next.consumers.dom() == state.consumers.dom()
                &&& forall|p: Id, c: Id|
                    #![trigger next.producers[p].contains(c)]
                    state.producers.contains_key(p) ==> (next.producers[p].contains(c)
                        <==> state.producers[p].contains(c) && !(p == producer && c == consumer))
                &&& forall|c: Id, p: Id|
                    #![trigger next.consumers[c].contains(p)]
                    state.consumers.contains_key(c) ==> (next.consumers[c].contains(p)
                        <==> state.consumers[c].contains(p) && !(p == producer && c == consumer))
                &&& next.producer_ids == state.producer_ids
                &&& next.listeners == state.listeners
                &&& next.meta == state.meta
            }
        }),
{
    let (next, answer) = state.end_session(from_consumer, id, other);
    let (producer, consumer) = if from_consumer {
        (other, id)
    } else {
        (id, other)
    };
    if answer is Ok {
        if !from_consumer {
            assert(state.producers[producer].contains(consumer));
        }
        if state.producers.contains_key(producer) {
            lemma_without(state.producers[producer], consumer);
        }
        lemma_without(state.consumers[consumer], producer);
        assert(next.producers.dom() =~= state.producers.dom());
        assert(next.consumers.dom() =~= state.consumers.dom());
        assert forall|p: Id, c: Id|
            #![trigger next.producers[p].contains(c)]
            state.producers.contains_key(p) implies (next.producers[p].contains(c)
            <==> state.producers[p].contains(c) && !(p == producer && c == consumer)) by {
            if p == producer {
                assert(next.producers[p] == without(state.producers[producer], consumer));
                assert(without(state.producers[producer], consumer).contains(c)
                    <==> state.producers[producer].contains(c) && c != consumer);
            }
        }
        assert forall|c: Id, p: Id|
            #![trigger next.consumers[c].contains(p)]
            state.consumers.contains_key(c) implies (next.consumers[c].contains(p)
            <==> state.consumers[c].contains(p) && !(p == producer && c == consumer)) by {
            if c == consumer {
                assert(next.consumers[c] == without(state.consumers[consumer], producer));
                assert(without(state.consumers[consumer], producer).contains(p)
                    <==> state.consumers[consumer].contains(p) && p != producer);
            }
        }
    }
}

/// Whoever asks for the producers, and whatever it is registered as, gets one message,
/// whose list names each registered producer once, with what the producer told about
/// itself, and nobody else. Nothing else changes.
pub proof fn whoever_asks_gets_the_list(state: HandlerView, id: Id)
    requires
        state.wf(),
    ensures
        ({
            let next = state.receive(id, Some(IncomingMessageView::List));
            let (to, message) = next.items.last();
            &&& next.items.len() == state.items.len() + 1
            &&& next.items.drop_last() == state.items
            &&& to == id
            &&& message is List
            &&& message->producers.no_duplicates()
            &&& message->producers.len() == state.producer_ids.len()
            &&& forall|peer: PeerView| #[trigger]
                message->producers.contains(peer) <==> {
                    &&& peer is Producer
                    &&& state.producers.contains_key(peer->Producer_id)
                    &&& peer->Producer_meta == (if state.meta.contains_key(peer->Producer_id) {
                        state.meta[peer->Producer_id]
                    } else {
                        None
                    })
                }
            &&& next.producer_ids == state.producer_ids
            &&& next.producers == state.producers
            &&& next.consumers == state.consumers
            &&& next.listeners == state.listeners
            &&& next.meta == state.meta
        }),
{
    super::laws::list_names_the_producers(state);
    let next = state.receive(id, Some(IncomingMessageView::List));
    assert(next.items.drop_last() =~= state.items);
    assert(next.items.last().1->producers == state.producer_list());
}

/// Who asks makes no difference to the list.
pub proof fn everybody_gets_the_same_list(state: HandlerView, one: Id, other: Id)
    ensures
        state.receive(one, Some(IncomingMessageView::List)).items.last().1 == state.receive(
            other,
            Some(IncomingMessageView::List),
        ).items.last().1,
{
}

/// A peer that is no producer yet becomes one, without sessions and with what it tells
/// about itself. Every listener gets one message that says so, in order, and then the
/// peer its confirmation. Nothing else changes. A producer is refused.
pub proof fn producers_register(state: HandlerView, id: Id, meta: Option<Value>)
    ensures
        ({
            let (next, answer) = state.register_producer(id, meta);
            &&& answer is Ok <==> !state.producers.contains_key(id)
            &&& answer is Err ==> next == state && answer == Err::<(), _>(
                HandlerErrorView::AlreadyRegistered { peer_id: id, role: Role::Producer },
            )
            &&& answer is Ok ==> {
                &&& next.items.len() == state.items.len() + state.listeners.len() + 1
                &&& forall|i: int|
                    0 <= i < state.items.len() ==> #[trigger] next.items[i] == state.items[i]
                &&& forall|i: int|
                    0 <= i < state.listeners.len() ==> #[trigger] next.items[state.items.len() + i]
                        == (
                        state.listeners[i],
                        OutgoingMessageView::ProducerAdded { peer_id: id, meta },
                    )
                &&& next.items.last() == (
                    id,
                    OutgoingMessageView::Registered(
                        RegisteredMessageView::Producer { peer_id: id, meta },
                    ),
                )
                &&& next.producers == state.producers.insert(id, Seq::empty())
                &&& next.producer_ids == state.producer_ids.push(id)
                &&& next.meta == state.meta.insert(id, meta)
                &&& next.consumers == state.consumers
                &&& next.listeners == state.listeners
            }
        }),
{
}

/// A peer that is no consumer yet becomes one, without sessions and with what it tells
/// about itself, and gets its confirmation. Nothing else changes. A consumer is
/// refused.
pub proof fn consumers_register(state: HandlerView, id: Id, meta: Option<Value>)
    ensures
        ({
            let (next, answer) = state.register_consumer(id, meta);
            &&& answer is Ok <==> !state.consumers.contains_key(id)
            &&& answer is Err ==> next == state && answer == Err::<(), _>(
                HandlerErrorView::AlreadyRegistered { peer_id: id, role: Role::Consumer },
            )
            &&& answer is Ok ==> {
                &&& next.items == state.items.push(
                    (
                        id,
                        OutgoingMessageView::Registered(
                            RegisteredMessageView::Consumer { peer_id: id, meta },
                        ),
                    ),
                )
                &&& next.consumers == state.consumers.insert(id, Seq::empty())
                &&& next.meta == state.meta.insert(id, meta)
                &&& next.producers == state.producers
                &&& next.producer_ids == state.producer_ids
                &&& next.listeners == state.listeners
            }
        }),
{
}

/// A peer that is no listener yet becomes one, with what it tells about itself, and
/// gets its confirmation. Nothing else changes. A listener is refused.
pub proof fn listeners_register(state: HandlerView, id: Id, meta: Option<Value>)
    ensures
        ({
            let (next, answer) = state.register_listener(id, meta);
            &&& answer is Ok <==> !state.listeners.contains(id)
            &&& answer is Err ==> next == state && answer == Err::<(), _>(
                HandlerErrorView::AlreadyRegistered { peer_id: id, role: Role::Listener },
            )
            &&& answer is Ok ==> {
                &&& next.items == state.items.push(
                    (
                        id,
                        OutgoingMessageView::Registered(
                            RegisteredMessageView::Listener { peer_id: id, meta },
                        ),
                    ),
                )
                &&& next.listeners == state.listeners.push(id)
                &&& next.meta == state.meta.insert(id, meta)
                &&& next.producers == state.producers
                &&& next.producer_ids == state.producer_ids
                &&& next.consumers == state.consumers
            }
        }),
{
}

/// A producer that goes is no producer any more. Each consumer in a session with it
/// gets one message that the producer ended the session, then each listener one
/// message that the producer is gone, with what it told about itself. The other
/// producers stay, with their sessions; consumers keep their side. For a peer that is
/// no producer nothing changes.
pub proof fn producers_go(state: HandlerView, id: Id)
    requires
        state.wf(),
    ensures
        ({
            let next = state.remove_producer_peer(id);
            let consumers = state.producers[id];
            let meta = if state.meta.contains_key(id) {
                state.meta[id]
            } else {
                None
            };
            &&& !state.producers.contains_key(id) ==> next == state
            &&& state.producers.contains_key(id) ==> {
                &&& next.items.len() == state.items.len() + consumers.len() + state.listeners.len()
                &&& forall|i: int|
                    0 <= i < state.items.len() ==> #[trigger] next.items[i] == state.items[i]
                &&& forall|i: int|
                    0 <= i < consumers.len() ==> #[trigger] next.items[state.items.len() + i] == (
                        consumers[i],
                        OutgoingMessageView::EndSession(
                            EndSessionMessageView::Producer { peer_id: id },
                        ),
                    )
                &&& forall|i: int|
                    0 <= i < state.listeners.len() ==> #[trigger] next.items[state.items.len()
                        + consumers.len() + i] == (
                        state.listeners[i],
                        OutgoingMessageView::ProducerRemoved { peer_id: id, meta },
                    )
                &&& next.producers == state.producers.remove(id)
                &&& next.producer_ids == state.producer_ids.filter(|other: Id| other != id)
                &&& next.consumers == state.consumers
                &&& next.listeners == state.listeners
                &&& next.meta == state.meta
            }
        }),
{
    crate::peers::without_is_a_filter(state.producer_ids, id);
}

/// A consumer that goes is no consumer any more, and no producer counts a session with
/// it. Each producer that it had a session with gets one message that the consumer
/// ended the session. What the peer told about itself is forgotten. All other sessions
/// stay. For a peer that is no consumer nothing changes but that.
pub proof fn consumers_go(state: HandlerView, id: Id)
    requires
        state.wf(),
    ensures
        ({
            let next = state.remove_consumer_peer(id);
            let producers = state.consumers[id];
            &&& !state.consumers.contains_key(id) ==> {
                &&& next.items == state.items
                &&& next.producers == state.producers
                &&& next.consumers == state.consumers
            }
            &&& state.consumers.contains_key(id) ==> {
                &&& next.items.len() == state.items.len() + producers.len()
                &&& forall|i: int|
                    0 <= i < state.items.len() ==> #[trigger] next.items[i] == state.items[i]
                &&& forall|i: int|
                    0 <= i < producers.len() ==> #[trigger] next.items[state.items.len() + i] == (
                        producers[i],
                        OutgoingMessageView::EndSession(
                            EndSessionMessageView::Consumer { peer_id: id },
                        ),
                    )
                &&& next.consumers == state.consumers.remove(id)
                &&& next.producers.dom() == state.producers.dom()
                &&& forall|p: Id, c: Id|
                    #![trigger next.producers[p].contains(c)]
                    state.producers.contains_key(p) ==> (next.producers[p].contains(c)
                        <==> state.producers[p].contains(c) && c != id)
            }
            &&& next.meta == state.meta.remove(id)
            &&& next.producer_ids == state.producer_ids
            &&& next.listeners == state.listeners
        }),
{
    let next = state.remove_consumer_peer(id);
    if state.consumers.contains_key(id) {
        assert(next.producers.dom() =~= state.producers.dom());
        assert forall|p: Id, c: Id|
            #![trigger next.producers[p].contains(c)]
            state.producers.contains_key(p) implies (next.producers[p].contains(c)
            <==> state.producers[p].contains(c) && c != id) by {
            lemma_without(state.producers[p], id);
            if state.producers[p].contains(id) {
                assert(state.consumers[id].contains(p));
            }
        }
    }
}

/// A listener that goes is no listener any more. The others stay, in their order, and
/// nobody is told.
pub proof fn listeners_go(state: HandlerView, id: Id)
    requires
        state.wf(),
    ensures
        state.remove_listener_peer(id) == (HandlerView {
            listeners: state.listeners.filter(|other: Id| other != id),
            ..state
        }),
{
    crate::peers::without_is_a_filter(state.listeners, id);
}

/// A peer that gives up a role goes in that role, whatever that comes to; it gets a
/// confirmation, with what it told about itself, and so does every listener, unless
/// the role was that of a listener.
pub proof fn roles_are_given_up(state: HandlerView, id: Id)
    ensures
        ({
            let meta = if state.meta.contains_key(id) {
                state.meta[id]
            } else {
                None
            };
            let gone = state.remove_producer_peer(id);
            let next = state.unregister(id, UnregisterMessage::Producer);
            let message = OutgoingMessageView::Unregistered(
                UnregisteredMessageView::Producer { peer_id: id, meta },
            );
            &&& next == (HandlerView { items: next.items, ..gone })
            &&& next.items.len() == gone.items.len() + 1 + state.listeners.len()
            &&& next.items.take(gone.items.len() as int) == gone.items
            &&& next.items[gone.items.len() as int] == (id, message)
            &&& forall|i: int|
                0 <= i < state.listeners.len() ==> #[trigger] next.items[gone.items.len() + 1 + i]
                    == (state.listeners[i], message)
        }),
        ({
            let meta = if state.meta.contains_key(id) {
                state.meta[id]
            } else {
                None
            };
            let gone = state.remove_consumer_peer(id);
            let next = state.unregister(id, UnregisterMessage::Consumer);
            let message = OutgoingMessageView::Unregistered(
                UnregisteredMessageView::Consumer { peer_id: id, meta },
            );
            &&& next == (HandlerView { items: next.items, ..gone })
            &&& next.items.len() == gone.items.len() + 1 + state.listeners.len()
            &&& next.items.take(gone.items.len() as int) == gone.items
            &&& next.items[gone.items.len() as int] == (id, message)
            &&& forall|i: int|
                0 <= i < state.listeners.len() ==> #[trigger] next.items[gone.items.len() + 1 + i]
                    == (state.listeners[i], message)
        }),
        ({
            let meta = if state.meta.contains_key(id) {
                state.meta[id]
            } else {
                None
            };
            let gone = state.remove_listener_peer(id);
            let next = state.unregister(id, UnregisterMessage::Listener);
            &&& next == (HandlerView { items: next.items, ..gone })
            &&& next.items == state.items.push(
                (
                    id,
                    OutgoingMessageView::Unregistered(
                        UnregisteredMessageView::Listener { peer_id: id, meta },
                    ),
                ),
            )
        }),
{
    let producer = state.remove_producer_peer(id);
    assert(state.unregister(id, UnregisterMessage::Producer).items.take(producer.items.len() as int)
        =~= producer.items);
    let consumer = state.remove_consumer_peer(id);
    assert(state.unregister(id, UnregisterMessage::Consumer).items.take(consumer.items.len() as int)
        =~= consumer.items);
}

/// A peer that is gone goes in every role: first as a listener, then as a producer,
/// then as a consumer.
pub proof fn peers_go_in_every_role(state: HandlerView, id: Id)
    ensures
        state.remove_peer(id) == state.remove_listener_peer(id).remove_producer_peer(
            id,
        ).remove_consumer_peer(id),
{
}

/// ICE candidates go from one side of a session to the other: exactly one message, to
/// the other side alone, with the candidate, its line and the sender. The sender has
/// to count the session in the role that it claims, else it is refused and nothing is
/// sent.
pub proof fn ice_candidates_are_forwarded(
    state: HandlerView,
    from_consumer: bool,
    candidate: Seq<char>,
    line: u32,
    id: Id,
    other: Id,
)
    ensures
        ({
            let (next, answer) = state.handle_ice(from_consumer, candidate, line, id, other);
            let info = PeerMessageInfoView {
                peer_id: id,
                peer_message: PeerMessageInnerView::Ice { candidate, sdp_m_line_index: line },
            };
            &&& from_consumer ==> (answer is Ok <==> state.consumers.contains_key(id)
                && state.consumers[id].contains(other))
            &&& !from_consumer ==> (answer is Ok <==> state.producers.contains_key(id)
                && state.producers[id].contains(other))
            &&& answer is Err ==> next == state && answer == Err::<(), _>(
                HandlerErrorView::IceOutsideSession {
                    from_consumer,
                    peer_id: id,
                    other_peer_id: other,
                },
            )
            &&& answer is Ok ==> next == (HandlerView {
                items: state.items.push(
                    (
                        other,
                        OutgoingMessageView::Peer(
                            if from_consumer {
                                PeerMessageView::Consumer(info)
                            } else {
                                PeerMessageView::Producer(info)
                            },
                        ),
                    ),
                ),
                ..state
            })
        }),
{
}

/// Offers go from the producer of a session to its consumer: exactly one message, to
/// the consumer alone, with the offer and the producer. Others are refused, and nothing
/// is sent.
pub proof fn offers_are_forwarded(
    state: HandlerView,
    from_consumer: bool,
    sdp: Seq<char>,
    producer: Id,
    consumer: Id,
)
    ensures
        ({
            let (next, answer) = state.handle_sdp_offer(from_consumer, sdp, producer, consumer);
            let present = state.producers.contains_key(producer);
            let info = PeerMessageInfoView {
                peer_id: producer,
                peer_message: PeerMessageInnerView::Sdp(SdpMessageView::Offer { sdp }),
            };
            &&& answer is Ok <==> present && state.producers[producer].contains(consumer)
            &&& answer is Err ==> next == state
            &&& !present ==> answer == Err::<(), _>(
                HandlerErrorView::OfferNotFromProducer {
                    producer_id: producer,
                    consumer_id: consumer,
                },
            )
            &&& present && answer is Err ==> answer == Err::<(), _>(
                HandlerErrorView::OfferOutsideSession {
                    producer_id: producer,
                    consumer_id: consumer,
                },
            )
            &&& answer is Ok ==> next == (HandlerView {
                items: state.items.push(
                    (
                        consumer,
                        OutgoingMessageView::Peer(
                            if from_consumer {
                                PeerMessageView::Consumer(info)
                            } else {
                                PeerMessageView::Producer(info)
                            },
                        ),
                    ),
                ),
                ..state
            })
        }),
{
}

/// Answers go from the consumer of a session to its producer: exactly one message, to
/// the producer alone, with the answer and the consumer. Others are refused, and
/// nothing is sent.
pub proof fn answers_are_forwarded(
    state: HandlerView,
    from_consumer: bool,
    sdp: Seq<char>,
    consumer: Id,
    producer: Id,
)
    ensures
        ({
            let (next, answer) = state.handle_sdp_answer(from_consumer, sdp, consumer, producer);
            let info = PeerMessageInfoView {
                peer_id: consumer,
                peer_message: PeerMessageInnerView::Sdp(SdpMessageView::Answer { sdp }),
            };
            &&& answer is Ok <==> state.consumers.contains_key(consumer)
                && state.consumers[consumer].contains(producer)
            &&& answer is Err ==> next == state && answer == Err::<(), _>(
                HandlerErrorView::AnswerOutsideSession {
                    consumer_id: consumer,
                    producer_id: producer,
                },
            )
            &&& answer is Ok ==> next == (HandlerView {
                items: state.items.push(
                    (
                        producer,
                        OutgoingMessageView::Peer(
                            if from_consumer {
                                PeerMessageView::Consumer(info)
                            } else {
                                PeerMessageView::Producer(info)
                            },
                        ),
                    ),
                ),
                ..state
            })
        }),
{
}

/// Several arrivals are taken in one after another, the first first.
pub proof fn arrivals_are_taken_in_order(
    state: HandlerView,
    first: Seq<Arrival>,
    second: Seq<Arrival>,
    id: Id,
    message: Option<IncomingMessageView>,
)
    ensures
        state.receive_all(Seq::empty()) == state,
        state.receive_all(seq![(id, message)]) == state.receive(id, message),
        state.receive_all(first + second) == state.receive_all(first).receive_all(second),
    decreases first.len(),
{
    let one: Seq<Arrival> = seq![(id, message)];
    assert(one.drop_first() =~= Seq::empty());
    assert(one.first() == (id, message));
    let next = state.receive(id, message);
    assert(next.receive_all(Seq::empty()) == next);
    if first.len() == 0 {
        assert(first + second =~= second);
    } else {
        assert((first + second).drop_first() =~= first.drop_first() + second);
        arrivals_are_taken_in_order(
            state.receive(first.first().0, first.first().1),
            first.drop_first(),
            second,
            id,
            message,
        );
    }
}

/// One who asks for a message gets the oldest, and the arrivals that are taken in for
/// it are the first ones, and no more of them than it takes: before the last of them,
/// there was nothing to hand out. Without a message, all arrivals were taken in and
/// there is nothing to hand out.
pub proof fn messages_are_handed_out_oldest_first(state: HandlerView, arrivals: Seq<Arrival>)
    ensures
        ({
            let (next, left, item) = state.polled(arrivals);
            let taken = arrivals.len() - left.len();
            let fed = state.receive_all(arrivals.take(taken));
            &&& 0 <= taken <= arrivals.len()
            &&& left == arrivals.skip(taken)
            &&& next == (HandlerView { items: next.items, ..fed })
            &&& forall|n: int|
                0 <= n < taken ==> #[trigger] state.receive_all(arrivals.take(n)).items.len() == 0
            &&& match item {
                Some(first) => fed.items == seq![first] + next.items,
                None => taken == arrivals.len() && fed.items.len() == 0 && next == fed,
            }
        }),
    decreases arrivals.len(),
{
    let (next, left, item) = state.polled(arrivals);
    assert(arrivals.take(0) =~= Seq::empty());
    assert(arrivals.skip(0) =~= arrivals);
    assert(state.receive_all(arrivals.take(0)) == state);
    if state.items.len() > 0 {
        assert(state.items =~= seq![state.items.first()] + next.items);
    } else if arrivals.len() > 0 {
        let (id, message) = arrivals.first();
        let middle = state.receive(id, message);
        let rest = arrivals.drop_first();
        messages_are_handed_out_oldest_first(middle, rest);
        let taken = arrivals.len() - left.len();
        assert forall|n: int| 0 < n <= arrivals.len() implies state.receive_all(
            #[trigger] arrivals.take(n),
        ) == middle.receive_all(rest.take(n - 1)) by {
            assert(arrivals.take(n).drop_first() =~= rest.take(n - 1));
            assert(arrivals.take(n).first() == arrivals.first());
        }
        assert(rest.skip(taken - 1) =~= arrivals.skip(taken));
        assert forall|n: int| 0 <= n < taken implies #[trigger] state.receive_all(
            arrivals.take(n),
        ).items.len() == 0 by {
            if n > 0 {
                assert(middle.receive_all(rest.take(n - 1)).items.len() == 0);
            }
        }
    }
}

/// What is handed out until there is nothing left is what waits, in order, and then
/// what the arrivals cause.
pub proof fn nothing_is_lost_or_added(state: HandlerView)
    ensures
        state.drained(Seq::empty()) == state.items,
{
    super::laws::asking_late_changes_nothing(state, Seq::empty());
}

/// A peer that is refused reads why, with the peers it is about.
pub proof fn refusals_say_why(refusal: HandlerErrorView)
    ensures
        ({
            let name = |role: Role|
                match role {
                    Role::Producer => "producer"@,
                    Role::Consumer => "consumer"@,
                    Role::Listener => "listener"@,
                };
            let text = refusal.details();
            match refusal {
                HandlerErrorView::AlreadyRegistered { peer_id, role } => text == peer_id
                    + " is already registered as a "@ + name(role),
                HandlerErrorView::NotRegistered { peer_id, role } => text == "Peer with id "@
                    + peer_id + " is not registered as a "@ + name(role),
                HandlerErrorView::AlreadyInSession { consumer_id, producer_id } => text
                    == "Consumer with id "@ + consumer_id
                    + " is already in a session with producer "@ + producer_id,
                HandlerErrorView::NotInSession { from_consumer, peer_id, other_peer_id } => {
                    &&& from_consumer ==> text == "Consumer"@ + " '"@ + peer_id
                        + "' is not in a session with '"@ + other_peer_id + "'"@
                    &&& !from_consumer ==> text == "Producer"@ + " '"@ + peer_id
                        + "' is not in a session with '"@ + other_peer_id + "'"@
                },
                HandlerErrorView::IceOutsideSession { from_consumer, peer_id, other_peer_id } => {
                    &&& from_consumer ==> text == "cannot forward ICE from consumer="@ + peer_id
                        + " to producer="@ + other_peer_id + " as they are not in a session"@
                    &&& !from_consumer ==> text == "cannot forward ICE from producer="@ + peer_id
                        + " to consumer="@ + other_peer_id + " as they are not in a session"@
                },
                HandlerErrorView::OfferOutsideSession { producer_id, consumer_id } => text
                    == "cannot forward offer from "@ + producer_id + " to "@ + consumer_id
                    + " as they are not in a session"@,
                HandlerErrorView::OfferNotFromProducer { producer_id, consumer_id } => text
                    == "cannot forward offer from "@ + producer_id + " to "@ + consumer_id
                    + " as they are not in a session or "@ + producer_id + " is not the producer"@,
                HandlerErrorView::AnswerOutsideSession { consumer_id, producer_id } => text
                    == "cannot forward answer from "@ + consumer_id + " to "@ + producer_id
                    + " as they are not in a session"@,
            }
        }),
{
}

/// A list follows what happened: a peer that registered as a producer is on the next
/// list, with what it told about itself, until it unregisters or is gone. It is on none
/// after that.
pub proof fn lists_follow_registrations(
    state: HandlerView,
    id: Id,
    meta: Option<Value>,
    asker: Id,
    entry: PeerView,
)
    requires
        state.wf(),
        !state.producers.contains_key(id),
    ensures
        ({
            let joined = state.receive(
                id,
                Some(IncomingMessageView::Register(RegisterMessage::Producer { meta })),
            );
            let left = joined.receive(
                id,
                Some(IncomingMessageView::Unregister(UnregisterMessage::Producer)),
            );
            let gone = joined.receive(id, None);
            let shown = |seen: HandlerView|
                seen.receive(asker, Some(IncomingMessageView::List)).items.last().1->producers;
            &&& shown(joined).contains(PeerView::Producer { id, meta })
            &&& entry is Producer && entry->Producer_id == id ==> !shown(state).contains(entry)
                && !shown(left).contains(entry) && !shown(gone).contains(entry)
            &&& entry is Producer && entry->Producer_id != id ==> {
                &&& shown(joined).contains(entry) <==> shown(state).contains(entry)
                &&& shown(left).contains(entry) <==> shown(state).contains(entry)
                &&& shown(gone).contains(entry) <==> shown(state).contains(entry)
            }
        }),
{
    let register = IncomingMessageView::Register(RegisterMessage::Producer { meta });
    let unregister = IncomingMessageView::Unregister(UnregisterMessage::Producer);
    let joined = state.receive(id, Some(register));
    let left = joined.receive(id, Some(unregister));
    let gone = joined.receive(id, None);
    super::wellformed::receive_keeps_wf(state, id, Some(register));
    super::wellformed::receive_keeps_wf(joined, id, Some(unregister));
    super::wellformed::receive_keeps_wf(joined, id, None);
    whoever_asks_gets_the_list(state, asker);
    whoever_asks_gets_the_list(joined, asker);
    whoever_asks_gets_the_list(left, asker);
    whoever_asks_gets_the_list(gone, asker);
    super::laws::a_departed_peer_leaves_no_role(joined, id);
    if entry is Producer && entry->Producer_id != id {
        let other = entry->Producer_id;
        super::laws::requests_leave_the_roles_of_others(state, id, Some(register), other);
        super::laws::requests_leave_the_roles_of_others(joined, id, Some(unregister), other);
        super::laws::requests_leave_the_roles_of_others(joined, id, None, other);
    }
}

} // verus!
