//! Every request keeps the handler's state well-formed.
use super::model::HandlerView;
use crate::peers::{lemma_with, lemma_without, with, without, Id};
use crate::protocol::{IncomingMessageView, RegisterMessage, UnregisterMessage};
use serde_json::Value;
use vstd::prelude::*;

verus! {

/// Registering keeps the state well-formed.
pub proof fn register_keeps_wf(state: HandlerView, id: Id, meta: Option<Value>)
    requires
        state.wf(),
    ensures
        state.register_producer(id, meta).0.wf(),
        state.register_consumer(id, meta).0.wf(),
        state.register_listener(id, meta).0.wf(),
{
    if !state.producers.contains_key(id) {
        assert(with(state.producer_ids, id) == state.producer_ids.push(id));
        lemma_with(state.producer_ids, id);
    }
    if !state.listeners.contains(id) {
        assert(with(state.listeners, id) == state.listeners.push(id));
        lemma_with(state.listeners, id);
    }
    if !state.consumers.contains_key(id) {
        let next = state.register_consumer(id, meta).0;
        assert forall|producer: Id, consumer: Id|
            #![trigger next.producers[producer].contains(consumer)]
            next.producers.contains_key(producer) && next.producers[producer].contains(consumer) implies {
            &&& next.consumers.contains_key(consumer)
            &&& next.consumers[consumer].contains(producer)
        } by {
            assert(state.producers[producer].contains(consumer));
        }
    }
}

/// Taking out a listener keeps the state well-formed.
pub proof fn remove_listener_keeps_wf(state: HandlerView, id: Id)
    requires
        state.wf(),
    ensures
        state.remove_listener_peer(id).wf(),
{
    lemma_without(state.listeners, id);
}

/// Taking out a producer keeps the state well-formed.
pub proof fn remove_producer_keeps_wf(state: HandlerView, id: Id)
    requires
        state.wf(),
    ensures
        state.remove_producer_peer(id).wf(),
{
    lemma_without(state.producer_ids, id);
    if state.producers.contains_key(id) {
        let next = state.remove_producer_peer(id);
        assert forall|producer: Id, consumer: Id|
            #![trigger next.producers[producer].contains(consumer)]
            next.producers.contains_key(producer) && next.producers[producer].contains(consumer) implies {
            &&& next.consumers.contains_key(consumer)
            &&& next.consumers[consumer].contains(producer)
        } by {
            assert(state.producers[producer].contains(consumer));
        }
    }
}

/// Taking out a consumer keeps the state well-formed.
pub proof fn remove_consumer_keeps_wf(state: HandlerView, id: Id)
    requires
        state.wf(),
    ensures
        state.remove_consumer_peer(id).wf(),
{
    let next = state.remove_consumer_peer(id);
    if state.consumers.contains_key(id) {
        assert forall|producer: Id| #[trigger]
            next.producers.contains_key(producer) implies next.producers[producer].no_duplicates() by {
            lemma_without(state.producers[producer], id);
        }
        assert forall|producer: Id, consumer: Id|
            #![trigger next.producers[producer].contains(consumer)]
            next.producers.contains_key(producer) && next.producers[producer].contains(consumer) implies {
            &&& next.consumers.contains_key(consumer)
            &&& next.consumers[consumer].contains(producer)
        } by {
            lemma_without(state.producers[producer], id);
            assert(state.producers[producer].contains(consumer));
        }
        assert forall|producer: Id| #[trigger]
            next.producer_ids.contains(producer) <==> next.producers.contains_key(producer) by {
            assert(state.producer_ids.contains(producer) <==> state.producers.contains_key(producer));
        }
    }
}

/// A departure keeps the state well-formed.
pub proof fn remove_peer_keeps_wf(state: HandlerView, id: Id)
    requires
        state.wf(),
    ensures
        state.remove_peer(id).wf(),
{
    remove_listener_keeps_wf(state, id);
    remove_producer_keeps_wf(state.remove_listener_peer(id), id);
    remove_consumer_keeps_wf(state.remove_listener_peer(id).remove_producer_peer(id), id);
}

/// Giving up a role keeps the state well-formed.
pub proof fn unregister_keeps_wf(state: HandlerView, id: Id, role: UnregisterMessage)
    requires
        state.wf(),
    ensures
        state.unregister(id, role).wf(),
{
    remove_listener_keeps_wf(state, id);
    remove_producer_keeps_wf(state, id);
    remove_consumer_keeps_wf(state, id);
    let bare = match role {
        UnregisterMessage::Producer => state.remove_producer_peer(id),
        UnregisterMessage::Consumer => state.remove_consumer_peer(id),
        UnregisterMessage::Listener => state.remove_listener_peer(id),
    };
    assert(bare.wf());
    let next = state.unregister(id, role);
    assert forall|producer: Id, consumer: Id|
        #![trigger next.producers[producer].contains(consumer)]
        next.producers.contains_key(producer) && next.producers[producer].contains(consumer) implies {
        &&& next.consumers.contains_key(consumer)
        &&& next.consumers[consumer].contains(producer)
    } by {
        assert(bare.producers[producer].contains(consumer));
    }
}

/// Starting a session keeps the state well-formed.
pub proof fn start_session_keeps_wf(state: HandlerView, producer: Id, consumer: Id)
    requires
        state.wf(),
    ensures
        state.start_session(producer, consumer).0.wf(),
{
    if state.start_session(producer, consumer).1 is Ok {
        assert(!state.producers[producer].contains(consumer));
        assert(with(state.producers[producer], consumer) == state.producers[producer].push(consumer));
        assert(with(state.consumers[consumer], producer) == state.consumers[consumer].push(producer));
        lemma_with(state.producers[producer], consumer);
        lemma_with(state.consumers[consumer], producer);
        let next = state.start_session(producer, consumer).0;
        assert forall|p: Id, c: Id|
            #![trigger next.producers[p].contains(c)]
            next.producers.contains_key(p) && next.producers[p].contains(c) implies {
            &&& next.consumers.contains_key(c)
            &&& next.consumers[c].contains(p)
        } by {
            assert(with(state.producers[producer], consumer).contains(c) || p != producer);
            if !(p == producer && c == consumer) {
                assert(state.producers[p].contains(c));
                assert(state.consumers[c].contains(p));
                assert(c == consumer ==> with(state.consumers[consumer], producer).contains(p));
            } else {
                assert(with(state.consumers[consumer], producer).contains(producer));
            }
        }
    }
}

/// Ending a session keeps the state well-formed.
pub proof fn end_session_keeps_wf(state: HandlerView, from_consumer: bool, id: Id, other: Id)
    requires
        state.wf(),
    ensures
        state.end_session(from_consumer, id, other).0.wf(),
{
    let (producer, consumer) = if from_consumer {
        (other, id)
    } else {
        (id, other)
    };
    if state.end_session(from_consumer, id, other).1 is Ok {
        let next = state.end_session(from_consumer, id, other).0;
        if state.producers.contains_key(producer) {
            lemma_without(state.producers[producer], consumer);
        }
        if !from_consumer {
            assert(state.producers[producer].contains(consumer));
        }
        lemma_without(state.consumers[consumer], producer);
        assert forall|p: Id, c: Id|
            #![trigger next.producers[p].contains(c)]
            next.producers.contains_key(p) && next.producers[p].contains(c) implies {
            &&& next.consumers.contains_key(c)
            &&& next.consumers[c].contains(p)
        } by {
            assert(state.producers[p].contains(c));
            assert(state.consumers[c].contains(p));
            assert(c == consumer ==> without(state.consumers[consumer], producer).contains(p) || p
                == producer);
            assert(p == producer ==> !without(state.producers[producer], consumer).contains(c) || c
                != consumer);
        }
        assert forall|p: Id| #[trigger] next.producer_ids.contains(p) <==> next.producers.contains_key(
            p,
        ) by {
            assert(state.producer_ids.contains(p) <==> state.producers.contains_key(p));
        }
    }
}

/// Queuing a message keeps the state well-formed.
pub proof fn queue_keeps_wf(state: HandlerView, next: HandlerView)
    requires
        state.wf(),
        next == (HandlerView { items: next.items, ..state }),
    ensures
        next.wf(),
{
    assert forall|p: Id, c: Id|
        #![trigger next.producers[p].contains(c)]
        next.producers.contains_key(p) && next.producers[p].contains(c) implies {
        &&& next.consumers.contains_key(c)
        &&& next.consumers[c].contains(p)
    } by {
        assert(state.producers[p].contains(c));
    }
}

/// Every request keeps the state well-formed.
pub proof fn handle_keeps_wf(state: HandlerView, id: Id, message: IncomingMessageView)
    requires
        state.wf(),
    ensures
        state.handle(id, message).0.wf(),
{
    match message {
        IncomingMessageView::Register(register) => {
            let meta = match register {
                RegisterMessage::Producer { meta } => meta,
                RegisterMessage::Consumer { meta } => meta,
                RegisterMessage::Listener { meta } => meta,
            };
            register_keeps_wf(state, id, meta);
        },
        IncomingMessageView::Unregister(role) => unregister_keeps_wf(state, id, role),
        IncomingMessageView::StartSession { peer_id } => start_session_keeps_wf(state, peer_id, id),
        IncomingMessageView::EndSession(m) => {
            match m {
                crate::protocol::EndSessionMessageView::Consumer { peer_id } => {
                    end_session_keeps_wf(state, true, id, peer_id)
                },
                crate::protocol::EndSessionMessageView::Producer { peer_id } => {
                    end_session_keeps_wf(state, false, id, peer_id)
                },
            }
        },
        IncomingMessageView::Peer(_) | IncomingMessageView::List => {
            queue_keeps_wf(state, state.handle(id, message).0);
        },
    }
}

/// Everything that arrives from peers, requests and departures, keeps the state
/// well-formed: no peer has a role twice, and each consumer of a producer is
/// registered and knows of the session.
pub proof fn receive_keeps_wf(state: HandlerView, id: Id, message: Option<IncomingMessageView>)
    requires
        state.wf(),
    ensures
        state.receive(id, message).wf(),
{
    match message {
        Some(request) => {
            handle_keeps_wf(state, id, request);
            queue_keeps_wf(state.handle(id, request).0, state.receive(id, message));
        },
        None => remove_peer_keeps_wf(state, id),
    }
}

} // verus!
