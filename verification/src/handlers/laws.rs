//! What holds of the handler whatever peers ask for.
use super::error::{HandlerErrorView, Role};
use super::model::{to_each, Arrival, HandlerView, Item};
use super::wellformed::{remove_listener_keeps_wf, remove_producer_keeps_wf};
use crate::peers::{lemma_with, lemma_without, with, without, Id};
use crate::protocol::{
    EndSessionMessageView, IncomingMessageView, OutgoingMessageView, PeerMessageInfoView,
    PeerMessageView, PeerView, RegisterMessage, RegisteredMessageView, UnregisterMessage,
};
use serde_json::Value;
use vstd::prelude::*;

verus! {

/// A refused request changes nothing, and its sender alone is told, with the
/// reason.
pub proof fn refused_request_changes_nothing(
    state: HandlerView,
    id: Id,
    message: IncomingMessageView,
)
    requires
        state.handle(id, message).1 is Err,
    ensures
        state.handle(id, message).0 == state,
        state.receive(id, Some(message)) == state.send(
            id,
            OutgoingMessageView::Error { details: state.handle(id, message).1->Err_0.details() },
        ),
{
}

/// Arrivals only ever add messages to the queue: those that wait keep their
/// place, so that messages are handed out in the order in which they were caused.
pub proof fn arrivals_only_append(
    state: HandlerView,
    id: Id,
    message: Option<IncomingMessageView>,
)
    ensures
        state.items.is_prefix_of(state.receive(id, message).items),
{
}

/// Messages that wait make no difference to what an arrival does.
proof fn lemma_queue_is_passive(
    state: HandlerView,
    earlier: Seq<Item>,
    id: Id,
    message: Option<IncomingMessageView>,
)
    ensures
        ({
            let next = state.receive(id, message);
            HandlerView { items: earlier + state.items, ..state }.receive(id, message)
                == (HandlerView { items: earlier + next.items, ..next })
        }),
{
    let next = state.receive(id, message);
    let longer = HandlerView { items: earlier + state.items, ..state };
    let expected = HandlerView { items: earlier + next.items, ..next };
    match message {
        None => {
            let without_producer = state.remove_listener_peer(id).remove_producer_peer(id);
            assert(longer.remove_listener_peer(id).remove_producer_peer(id).items =~= earlier
                + without_producer.items);
            assert(longer.receive(id, message) =~= expected);
        },
        Some(IncomingMessageView::Register(_)) => {
            assert(longer.receive(id, message) =~= expected);
        },
        Some(IncomingMessageView::Unregister(_)) => {
            assert(longer.receive(id, message) =~= expected);
        },
        Some(IncomingMessageView::StartSession { .. }) => {
            assert(longer.receive(id, message) =~= expected);
        },
        Some(IncomingMessageView::EndSession(_)) => {
            assert(longer.receive(id, message) =~= expected);
        },
        Some(IncomingMessageView::Peer(_)) => {
            assert(longer.receive(id, message) =~= expected);
        },
        Some(IncomingMessageView::List) => {
            assert(longer.producer_list() =~= state.producer_list());
            assert(longer.receive(id, message) =~= expected);
        },
    }
}

/// Messages that wait make no difference to what several arrivals do.
proof fn lemma_queue_is_passive_throughout(
    state: HandlerView,
    earlier: Seq<Item>,
    arrivals: Seq<Arrival>,
)
    ensures
        ({
            let last = state.receive_all(arrivals);
            HandlerView { items: earlier + state.items, ..state }.receive_all(arrivals)
                == (HandlerView { items: earlier + last.items, ..last })
        }),
    decreases arrivals.len(),
{
    if arrivals.len() > 0 {
        let (id, message) = arrivals.first();
        lemma_queue_is_passive(state, earlier, id, message);
        lemma_queue_is_passive_throughout(
            state.receive(id, message),
            earlier,
            arrivals.drop_first(),
        );
    }
}

/// It makes no difference when messages are asked for. Arrivals that are taken in
/// one by one, as messages run out, cause the same messages in the same order as
/// arrivals that are taken in at once.
pub proof fn asking_late_changes_nothing(state: HandlerView, arrivals: Seq<Arrival>)
    ensures
        state.drained(arrivals) == state.receive_all(arrivals).items,
    decreases arrivals.len(), state.items.len(),
{
    if state.items.len() > 0 {
        let first = seq![state.items.first()];
        let rest = HandlerView { items: state.items.drop_first(), ..state };
        asking_late_changes_nothing(rest, arrivals);
        lemma_queue_is_passive_throughout(rest, first, arrivals);
        assert(HandlerView { items: first + rest.items, ..rest } =~= state);
    } else if arrivals.len() > 0 {
        let (id, message) = arrivals.first();
        asking_late_changes_nothing(state.receive(id, message), arrivals.drop_first());
    }
}

/// What is handed out by asking once is what comes first of all that is handed out.
pub proof fn asking_hands_out_the_first(state: HandlerView, arrivals: Seq<Arrival>)
    ensures
        ({
            let (next, left, item) = state.polled(arrivals);
            match item {
                Some(first) => state.drained(arrivals) == seq![first] + next.drained(left),
                None => state.drained(arrivals).len() == 0 && left.len() == 0,
            }
        }),
    decreases arrivals.len(),
{
    if state.items.len() == 0 && arrivals.len() > 0 {
        let (id, message) = arrivals.first();
        asking_hands_out_the_first(state.receive(id, message), arrivals.drop_first());
    }
}

/// A message reaches another peer only within a session of the two, it reaches
/// that peer alone, and it arrives as it was sent, with the sender's identifier.
pub proof fn peer_messages_stay_within_sessions(
    state: HandlerView,
    id: Id,
    as_consumer: bool,
    info: PeerMessageInfoView,
)
    requires
        state.wf(),
    ensures
        ({
            let message = if as_consumer {
                PeerMessageView::Consumer(info)
            } else {
                PeerMessageView::Producer(info)
            };
            let sent = PeerMessageInfoView { peer_id: id, ..info };
            let (next, answer) = state.handle(id, IncomingMessageView::Peer(message));
            &&& answer is Ok ==> state.producer_has(id, info.peer_id) || state.consumer_has(
                id,
                info.peer_id,
            )
            &&& answer is Ok ==> next == state.send(
                info.peer_id,
                OutgoingMessageView::Peer(
                    if as_consumer {
                        PeerMessageView::Consumer(sent)
                    } else {
                        PeerMessageView::Producer(sent)
                    },
                ),
            )
            &&& answer is Err ==> next == state
        }),
{
}

/// Within a session, offers of the producer and answers of the consumer are
/// forwarded, and so are ICE candidates of either.
pub proof fn session_messages_are_forwarded(
    state: HandlerView,
    producer: Id,
    consumer: Id,
    label: bool,
    text: Seq<char>,
    line: u32,
)
    requires
        state.wf(),
        state.producer_has(producer, consumer),
    ensures
        state.consumer_has(consumer, producer),
        state.handle_sdp_offer(label, text, producer, consumer).1 is Ok,
        state.handle_sdp_answer(label, text, consumer, producer).1 is Ok,
        state.handle_ice(false, text, line, producer, consumer).1 is Ok,
        state.handle_ice(true, text, line, consumer, producer).1 is Ok,
{
    assert(state.producers[producer].contains(consumer));
}

/// A list names each registered producer once, with what it told about itself,
/// and nobody else.
pub proof fn list_names_the_producers(state: HandlerView)
    requires
        state.wf(),
    ensures
        state.producer_list().no_duplicates(),
        forall|peer: PeerView| #[trigger]
            state.producer_list().contains(peer) <==> {
                &&& peer is Producer
                &&& state.producers.contains_key(peer->Producer_id)
                &&& peer->Producer_meta == state.meta_of(peer->Producer_id)
            },
{
    let list = state.producer_list();
    assert forall|peer: PeerView| #[trigger] list.contains(peer) implies {
        &&& peer is Producer
        &&& state.producers.contains_key(peer->Producer_id)
        &&& peer->Producer_meta == state.meta_of(peer->Producer_id)
    } by {
        let i = list.index_of(peer);
        assert(state.producer_ids.contains(state.producer_ids[i]));
    }
    assert forall|peer: PeerView|
        {
            &&& peer is Producer
            &&& state.producers.contains_key(peer->Producer_id)
            &&& peer->Producer_meta == state.meta_of(peer->Producer_id)
        } implies #[trigger] list.contains(peer) by {
        assert(state.producer_ids.contains(peer->Producer_id));
        let i = state.producer_ids.index_of(peer->Producer_id);
        assert(list[i] == peer);
    }
}

/// A peer that registered is registered, with what it told about itself, and is
/// told so.
pub proof fn registering_registers(state: HandlerView, id: Id, meta: Option<Value>)
    ensures
        ({
            let (next, answer) = state.register_producer(id, meta);
            answer is Ok ==> {
                &&& next.producers.contains_key(id) && next.producers[id].len() == 0
                &&& next.meta_of(id) == meta
                &&& next.items.contains(
                    (
                        id,
                        OutgoingMessageView::Registered(
                            RegisteredMessageView::Producer { peer_id: id, meta },
                        ),
                    ),
                )
            }
        }),
        ({
            let (next, answer) = state.register_consumer(id, meta);
            answer is Ok ==> {
                &&& next.consumers.contains_key(id) && next.consumers[id].len() == 0
                &&& next.meta_of(id) == meta
                &&& next.items.contains(
                    (
                        id,
                        OutgoingMessageView::Registered(
                            RegisteredMessageView::Consumer { peer_id: id, meta },
                        ),
                    ),
                )
            }
        }),
        ({
            let (next, answer) = state.register_listener(id, meta);
            answer is Ok ==> {
                &&& next.listeners.contains(id)
                &&& next.meta_of(id) == meta
                &&& next.items.contains(
                    (
                        id,
                        OutgoingMessageView::Registered(
                            RegisteredMessageView::Listener { peer_id: id, meta },
                        ),
                    ),
                )
            }
        }),
{
    let producer = state.register_producer(id, meta).0;
    if state.register_producer(id, meta).1 is Ok {
        assert(producer.items.last() == (
            id,
            OutgoingMessageView::Registered(RegisteredMessageView::Producer { peer_id: id, meta }),
        ));
    }
    let consumer = state.register_consumer(id, meta).0;
    if state.register_consumer(id, meta).1 is Ok {
        assert(consumer.items.last() == (
            id,
            OutgoingMessageView::Registered(RegisteredMessageView::Consumer { peer_id: id, meta }),
        ));
    }
    let listener = state.register_listener(id, meta).0;
    if state.register_listener(id, meta).1 is Ok {
        assert(listener.items.last() == (
            id,
            OutgoingMessageView::Registered(RegisteredMessageView::Listener { peer_id: id, meta }),
        ));
        assert(listener.listeners.last() == id);
    }
}

/// A role that a peer has is refused to it; one that it gave up can be taken again.
pub proof fn a_role_is_taken_once(
    state: HandlerView,
    id: Id,
    first: Option<Value>,
    second: Option<Value>,
)
    requires
        state.wf(),
    ensures
        state.register_producer(id, first).0.register_producer(id, second).1 == Err::<(), _>(
            HandlerErrorView::AlreadyRegistered { peer_id: id, role: Role::Producer },
        ),
        state.register_consumer(id, first).0.register_consumer(id, second).1 == Err::<(), _>(
            HandlerErrorView::AlreadyRegistered { peer_id: id, role: Role::Consumer },
        ),
        state.register_listener(id, first).0.register_listener(id, second).1 == Err::<(), _>(
            HandlerErrorView::AlreadyRegistered { peer_id: id, role: Role::Listener },
        ),
        state.unregister(id, UnregisterMessage::Producer).register_producer(id, first).1 is Ok,
        state.unregister(id, UnregisterMessage::Consumer).register_consumer(id, first).1 is Ok,
        state.unregister(id, UnregisterMessage::Listener).register_listener(id, first).1 is Ok,
{
    if !state.listeners.contains(id) {
        assert(state.register_listener(id, first).0.listeners.last() == id);
    }
    lemma_without(state.listeners, id);
}

/// Every listener is told of every producer that registers.
pub proof fn listeners_hear_of_new_producers(
    state: HandlerView,
    id: Id,
    meta: Option<Value>,
    listener: Id,
)
    requires
        state.listeners.contains(listener),
        !state.producers.contains_key(id),
    ensures
        state.register_producer(id, meta).0.items.contains(
            (listener, OutgoingMessageView::ProducerAdded { peer_id: id, meta }),
        ),
{
    let message = OutgoingMessageView::ProducerAdded { peer_id: id, meta };
    let at = state.listeners.index_of(listener);
    let next = state.register_producer(id, meta).0;
    assert(to_each(state.listeners, message)[at] == (listener, message));
    assert(next.items[state.items.len() + at] == (listener, message));
}

/// Every listener is told of every producer that goes, be it that the producer
/// unregisters or that it is gone (then it does not count as a listener itself).
pub proof fn listeners_hear_of_lost_producers(state: HandlerView, id: Id, listener: Id)
    requires
        state.wf(),
        state.listeners.contains(listener),
        state.producers.contains_key(id),
    ensures
        ({
            let message = OutgoingMessageView::ProducerRemoved {
                peer_id: id,
                meta: state.meta_of(id),
            };
            &&& state.unregister(id, UnregisterMessage::Producer).items.contains(
                (listener, message),
            )
            &&& listener != id ==> state.remove_peer(id).items.contains((listener, message))
        }),
{
    let message = OutgoingMessageView::ProducerRemoved { peer_id: id, meta: state.meta_of(id) };
    let at = state.listeners.index_of(listener);
    let told = state.producers[id].len();
    let next = state.unregister(id, UnregisterMessage::Producer);
    assert(to_each(state.listeners, message)[at] == (listener, message));
    assert(state.remove_producer_peer(id).items[state.items.len() + told + at] == (
        listener,
        message,
    ));
    assert(next.items[state.items.len() + told + at] == (listener, message));
    if listener != id {
        lemma_without(state.listeners, id);
        let others = without(state.listeners, id);
        assert(others.contains(listener));
        let at = others.index_of(listener);
        assert(to_each(others, message)[at] == (listener, message));
        let middle = state.remove_listener_peer(id).remove_producer_peer(id);
        assert(middle.items[state.items.len() + told + at] == (listener, message));
        assert(state.remove_peer(id).items[state.items.len() + told + at] == (listener, message));
    }
}

/// A session that was started is known to both sides, and is refused a second time.
pub proof fn a_started_session_is_known_to_both(state: HandlerView, producer: Id, consumer: Id)
    requires
        state.wf(),
        state.start_session(producer, consumer).1 is Ok,
    ensures
        ({
            let next = state.start_session(producer, consumer).0;
            &&& next.producer_has(producer, consumer)
            &&& next.consumer_has(consumer, producer)
            &&& next.start_session(producer, consumer).1 == Err::<(), _>(
                HandlerErrorView::AlreadyInSession {
                    consumer_id: consumer,
                    producer_id: producer,
                },
            )
        }),
{
    let next = state.start_session(producer, consumer).0;
    assert(next.producers[producer].last() == consumer);
    assert(next.consumers[consumer].last() == producer);
}

/// Taking out what was added last gives back what there was.
proof fn lemma_without_pushed(ids: Seq<Id>, id: Id)
    requires
        !ids.contains(id),
        ids.no_duplicates(),
    ensures
        without(ids.push(id), id) == ids,
{
    lemma_with(ids, id);
    let more = ids.push(id);
    assert(more == with(ids, id));
    assert(more.contains(id));
    let at = more.index_of(id);
    assert(at == ids.len()) by {
        if at < ids.len() {
            assert(ids[at] == id);
        }
    }
    assert(more.remove(at) =~= ids);
}

/// Ending a session undoes starting it, whichever side ends it: but for the
/// messages that were queued, everything is as it was.
pub proof fn ending_undoes_starting(
    state: HandlerView,
    producer: Id,
    consumer: Id,
    from_consumer: bool,
)
    requires
        state.wf(),
        state.start_session(producer, consumer).1 is Ok,
    ensures
        ({
            let started = state.start_session(producer, consumer).0;
            let (ended, answer) = if from_consumer {
                started.end_session(true, consumer, producer)
            } else {
                started.end_session(false, producer, consumer)
            };
            &&& answer is Ok
            &&& ended == (HandlerView { items: ended.items, ..state })
        }),
{
    a_started_session_is_known_to_both(state, producer, consumer);
    let started = state.start_session(producer, consumer).0;
    let ended = if from_consumer {
        started.end_session(true, consumer, producer).0
    } else {
        started.end_session(false, producer, consumer).0
    };
    assert(!state.producers[producer].contains(consumer));
    lemma_without_pushed(state.producers[producer], consumer);
    lemma_without_pushed(state.consumers[consumer], producer);
    assert(ended.producers =~= state.producers);
    assert(ended.consumers =~= state.consumers);
}

/// A session that was ended is over for both sides: neither can end it again.
pub proof fn a_session_ends_once(state: HandlerView, from_consumer: bool, id: Id, other: Id)
    requires
        state.wf(),
        state.end_session(from_consumer, id, other).1 is Ok,
    ensures
        ({
            let ended = state.end_session(from_consumer, id, other).0;
            &&& ended.end_session(from_consumer, id, other).1 == Err::<(), _>(
                HandlerErrorView::NotInSession {
                    from_consumer,
                    peer_id: id,
                    other_peer_id: other,
                },
            )
            &&& ended.end_session(!from_consumer, other, id).1 == Err::<(), _>(
                HandlerErrorView::NotInSession {
                    from_consumer: !from_consumer,
                    peer_id: other,
                    other_peer_id: id,
                },
            )
        }),
{
    let ended = state.end_session(from_consumer, id, other).0;
    let (producer, consumer) = if from_consumer {
        (other, id)
    } else {
        (id, other)
    };
    if !from_consumer {
        assert(state.producers[producer].contains(consumer));
    }
    lemma_without(state.consumers[consumer], producer);
    if state.producers.contains_key(producer) {
        lemma_without(state.producers[producer], consumer);
    }
    assert(!ended.consumer_has(consumer, producer));
    assert(!ended.producer_has(producer, consumer));
}

/// A consumer whose producer has gone can still end its side of the session.
pub proof fn a_consumer_can_leave_a_lost_producer(state: HandlerView, producer: Id, consumer: Id)
    requires
        state.wf(),
        state.producer_has(producer, consumer),
    ensures
        ({
            let lost = state.remove_producer_peer(producer);
            let (left, answer) = lost.end_session(true, consumer, producer);
            &&& answer is Ok
            &&& !left.consumer_has(consumer, producer)
        }),
{
    assert(state.producers[producer].contains(consumer));
    lemma_without(state.consumers[consumer], producer);
}

/// A peer that is gone has no role left, nothing is kept of what it told, and no
/// producer counts it among its consumers. The other peers keep their roles.
pub proof fn a_departed_peer_leaves_no_role(state: HandlerView, id: Id)
    requires
        state.wf(),
    ensures
        ({
            let next = state.remove_peer(id);
            &&& !next.producers.contains_key(id)
            &&& !next.producer_ids.contains(id)
            &&& !next.consumers.contains_key(id)
            &&& !next.listeners.contains(id)
            &&& !next.meta.contains_key(id)
            &&& forall|producer: Id| !#[trigger] next.producer_has(producer, id)
            &&& forall|other: Id|
                other != id ==> {
                    &&& #[trigger] next.producers.contains_key(other)
                        <==> state.producers.contains_key(other)
                    &&& next.consumers.contains_key(other) <==> state.consumers.contains_key(other)
                    &&& next.listeners.contains(other) <==> state.listeners.contains(other)
                    &&& next.meta_of(other) == state.meta_of(other)
                }
        }),
{
    lemma_without(state.listeners, id);
    lemma_without(state.producer_ids, id);
    remove_listener_keeps_wf(state, id);
    let first = state.remove_listener_peer(id);
    remove_producer_keeps_wf(first, id);
    let second = first.remove_producer_peer(id);
    let next = state.remove_peer(id);
    assert forall|producer: Id| !#[trigger] next.producer_has(producer, id) by {
        if next.producer_has(producer, id) {
            if second.producers[producer].contains(id) {
                lemma_without(second.producers[producer], id);
            }
        }
    }
    if !state.producers.contains_key(id) {
        assert(!state.producer_ids.contains(id));
    }
}

/// Who is told that a peer is gone: the consumers of the producer it was, the
/// other listeners if it was a producer, the producers of the consumer it was.
pub proof fn who_is_told_of_a_departure(state: HandlerView, id: Id)
    requires
        state.wf(),
    ensures
        state.remove_peer(id).items == state.items + (if state.producers.contains_key(id) {
            to_each(
                state.producers[id],
                OutgoingMessageView::EndSession(EndSessionMessageView::Producer { peer_id: id }),
            ) + to_each(
                without(state.listeners, id),
                OutgoingMessageView::ProducerRemoved { peer_id: id, meta: state.meta_of(id) },
            )
        } else {
            Seq::empty()
        }) + (if state.consumers.contains_key(id) {
            to_each(
                state.consumers[id],
                OutgoingMessageView::EndSession(EndSessionMessageView::Consumer { peer_id: id }),
            )
        } else {
            Seq::empty()
        }),
{
    let next = state.remove_peer(id);
    let ended = if state.producers.contains_key(id) {
        to_each(
            state.producers[id],
            OutgoingMessageView::EndSession(EndSessionMessageView::Producer { peer_id: id }),
        ) + to_each(
            without(state.listeners, id),
            OutgoingMessageView::ProducerRemoved { peer_id: id, meta: state.meta_of(id) },
        )
    } else {
        Seq::empty()
    };
    assert(state.remove_listener_peer(id).remove_producer_peer(id).items =~= state.items + ended);
    if !state.consumers.contains_key(id) {
        assert(state.items + ended + Seq::empty() =~= state.items + ended);
    }
}

/// No request of one peer gives a role to another, or takes one from it.
pub proof fn requests_leave_the_roles_of_others(
    state: HandlerView,
    id: Id,
    message: Option<IncomingMessageView>,
    other: Id,
)
    requires
        state.wf(),
        other != id,
    ensures
        ({
            let next = state.receive(id, message);
            &&& next.producers.contains_key(other) <==> state.producers.contains_key(other)
            &&& next.consumers.contains_key(other) <==> state.consumers.contains_key(other)
            &&& next.listeners.contains(other) <==> state.listeners.contains(other)
            &&& next.meta_of(other) == state.meta_of(other)
        }),
{
    lemma_without(state.listeners, id);
    lemma_with(state.listeners, id);
    match message {
        None => a_departed_peer_leaves_no_role(state, id),
        Some(request) => {
            match request {
                IncomingMessageView::Register(RegisterMessage::Listener { meta }) => {
                    if !state.listeners.contains(id) {
                        assert(state.listeners.push(id) == with(state.listeners, id));
                        assert(with(state.listeners, id).contains(other)
                            <==> state.listeners.contains(other));
                    }
                },
                IncomingMessageView::EndSession(m) => {
                    match m {
                        EndSessionMessageView::Consumer { peer_id } => {},
                        EndSessionMessageView::Producer { peer_id } => {
                            if state.producer_has(id, peer_id) {
                                assert(state.producers[id].contains(peer_id));
                            }
                        },
                    }
                },
                _ => {},
            }
        },
    }
}

} // verus!
